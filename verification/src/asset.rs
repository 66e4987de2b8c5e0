//! The files of the image directory: how the files of a display are named,
//! and which displays a listing of the directory shows.

use crate::mac::{is_mac_text, lower_text, mac_bytes, parse_of_text, EpdMac, MAC_LEN};
use vstd::prelude::*;
use vstd::string::*;

verus! {

/// The three files that may hold the image of a display.
#[derive(Debug, Clone, Copy, PartialEq, Eq, Structural)]
pub enum AssetKind {
    /// The drawing, wrapped into a document of the display's size.
    Svg,
    /// A bitmap for the display. The store removes it and never writes it.
    Bmp,
    /// The rendered preview. A display is known while this file is there.
    Png,
}

impl AssetKind {
    /// The end of the file's name, with its dot.
    pub open spec fn extension_text(self) -> Seq<char> {
        match self {
            AssetKind::Svg => ".svg"@,
            AssetKind::Bmp => ".bmp"@,
            AssetKind::Png => ".png"@,
        }
    }

    /// The end of the file's name, with its dot.
    pub fn extension(self) -> (ext: &'static str)
        ensures
            ext@ == self.extension_text(),
    {
        match self {
            AssetKind::Svg => ".svg",
            AssetKind::Bmp => ".bmp",
            AssetKind::Png => ".png",
        }
    }
}

/// The number of characters in the name of a file of the store.
pub open spec fn file_name_len() -> nat {
    (2 * MAC_LEN + 4) as nat
}

/// The name, inside the image directory, of the file of kind `kind` of the
/// display `mac`: the address in lower case, then the extension.
pub open spec fn file_name(mac: Seq<u8>, kind: AssetKind) -> Seq<char> {
    lower_text(mac) + kind.extension_text()
}

/// The name, inside the image directory, of the file of kind `kind` of the
/// display `mac`.
pub fn asset_file_name(mac: &EpdMac, kind: AssetKind) -> (name: String)
    ensures
        name@ == file_name(mac@, kind),
{
    mac.file_stem().concat(kind.extension())
}

/// The display whose preview a file named `name` is, if it is one: the name
/// is the text of an address, in either case, followed by `.png`.
pub open spec fn preview_mac(name: Seq<char>) -> Option<Seq<u8>> {
    if name.len() == file_name_len() && name.subrange(2 * MAC_LEN as int, name.len() as int)
        == ".png"@ && is_mac_text(name.subrange(0, 2 * MAC_LEN as int)) {
        Some(mac_bytes(name.subrange(0, 2 * MAC_LEN as int)))
    } else {
        None
    }
}

/// The display whose preview a file named `name` is, if it is one.
pub fn preview_address(name: &str) -> (r: Option<EpdMac>)
    ensures
        r is Some <==> preview_mac(name@) is Some,
        r matches Some(mac) ==> Some(mac@) == preview_mac(name@),
{
    proof {
        reveal_strlit(".png");
    }
    if !name.is_ascii() {
        proof {
            if name@.len() == file_name_len() {
                let i = choose|i: int|
                    0 <= i < name@.len() && !('\0' <= #[trigger] name@[i] && name@[i]
                        <= '\u{7f}');
                if i < 2 * MAC_LEN {
                    assert(name@.subrange(0, 2 * MAC_LEN as int)[i] == name@[i]);
                } else {
                    assert(name@.subrange(2 * MAC_LEN as int, name@.len() as int)[i - 2 * MAC_LEN]
                        == name@[i]);
                }
            }
        }
        return None;
    }
    let bytes = name.as_bytes();
    proof {
        is_ascii_spec_bytes(name);
    }
    if bytes.len() != 2 * MAC_LEN + 4 {
        return None;
    }
    if bytes[2 * MAC_LEN] != 46 || bytes[2 * MAC_LEN + 1] != 112 || bytes[2 * MAC_LEN + 2] != 110
        || bytes[2 * MAC_LEN + 3] != 103 {
        proof {
            let ext = name@.subrange(2 * MAC_LEN as int, name@.len() as int);
            assert(ext[0] == name@[16] && ext[1] == name@[17] && ext[2] == name@[18] && ext[3]
                == name@[19]);
        }
        return None;
    }
    assert(name@.subrange(2 * MAC_LEN as int, name@.len() as int) =~= ".png"@);
    match EpdMac::parse(name.substring_ascii(0, 2 * MAC_LEN)) {
        Ok(mac) => Some(mac),
        Err(_) => None,
    }
}

/// One entry of the image directory.
#[derive(Debug)]
pub struct StoreEntry {
    /// The name of the entry, without the directory.
    pub name: String,
    /// Whether the entry is a regular file.
    pub is_file: bool,
}

impl StoreEntry {
    /// The display that the entry shows to be known, if it does: the entry is
    /// a regular file and its name is that of a preview.
    pub open spec fn shows(&self) -> Option<Seq<u8>> {
        if self.is_file {
            preview_mac(self.name@)
        } else {
            None
        }
    }

    /// An entry of the image directory.
    pub fn new(name: String, is_file: bool) -> (entry: StoreEntry)
        ensures
            entry.name == name,
            entry.is_file == is_file,
    {
        StoreEntry { name, is_file }
    }

    /// The display that the entry shows to be known, if it does.
    pub fn address(&self) -> (r: Option<EpdMac>)
        ensures
            r is Some <==> self.shows() is Some,
            r matches Some(mac) ==> Some(mac@) == self.shows(),
    {
        if self.is_file {
            preview_address(self.name.as_str())
        } else {
            None
        }
    }
}

/// The displays that a listing shows, in the order of the listing: one for
/// each entry that shows one, every other entry passed over.
pub open spec fn listed_macs(entries: Seq<StoreEntry>) -> Seq<Seq<u8>>
    decreases entries.len(),
{
    if entries.len() == 0 {
        Seq::empty()
    } else {
        let before = listed_macs(entries.drop_last());
        match entries.last().shows() {
            Some(mac) => before.push(mac),
            None => before,
        }
    }
}

/// The addresses of `macs` as bytes.
pub open spec fn addresses(macs: Seq<EpdMac>) -> Seq<Seq<u8>> {
    Seq::new(macs.len(), |i: int| macs[i]@)
}

/// The displays that a listing of the image directory shows, in the order of
/// the listing.
pub fn list_macs(entries: &Vec<StoreEntry>) -> (macs: Vec<EpdMac>)
    ensures
        addresses(macs@) == listed_macs(entries@),
{
    let mut macs: Vec<EpdMac> = Vec::new();
    let mut i: usize = 0;
    while i < entries.len()
        invariant
            i <= entries.len(),
            addresses(macs@) == listed_macs(entries@.take(i as int)),
        decreases entries.len() - i,
    {
        let found = entries[i].address();
        proof {
            let upto = entries@.take(i as int + 1);
            assert(upto.drop_last() =~= entries@.take(i as int));
        }
        match found {
            Some(mac) => {
                macs.push(mac);
            },
            None => {},
        }
        i += 1;
    }
    assert(entries@.take(entries.len() as int) =~= entries@);
    macs
}

/// The names of the store are free of collisions: two files of the store
/// with one name are the same file of the same display.
pub proof fn file_name_is_injective(a: Seq<u8>, j: AssetKind, b: Seq<u8>, k: AssetKind)
    requires
        a.len() == MAC_LEN,
        b.len() == MAC_LEN,
        file_name(a, j) == file_name(b, k),
    ensures
        a == b,
        j == k,
{
    reveal_strlit(".svg");
    reveal_strlit(".bmp");
    reveal_strlit(".png");
    let name = file_name(a, j);
    assert(name.subrange(0, 2 * MAC_LEN as int) =~= lower_text(a));
    assert(name.subrange(0, 2 * MAC_LEN as int) =~= lower_text(b));
    crate::mac::text_is_injective(a, b);
    assert(k.extension_text()[2] == name[2 * MAC_LEN + 2]);
}

/// The preview of a display, under the name that the store gives it, shows
/// that display and no other.
pub proof fn preview_name_shows_mac(mac: Seq<u8>)
    requires
        mac.len() == MAC_LEN,
    ensures
        preview_mac(file_name(mac, AssetKind::Png)) == Some(mac),
{
    reveal_strlit(".png");
    let name = file_name(mac, AssetKind::Png);
    assert(name.subrange(2 * MAC_LEN as int, name.len() as int) =~= ".png"@);
    parse_of_text(mac);
}

/// A listing shows exactly the displays that one of its entries shows.
pub proof fn listed_iff_shown(entries: Seq<StoreEntry>, mac: Seq<u8>)
    ensures
        listed_macs(entries).contains(mac) <==> exists|i: int|
            0 <= i < entries.len() && (#[trigger] entries[i]).shows() == Some(mac),
    decreases entries.len(),
{
    if entries.len() > 0 {
        let before = entries.drop_last();
        listed_iff_shown(before, mac);
        let listed = listed_macs(entries);
        if exists|i: int| 0 <= i < entries.len() && (#[trigger] entries[i]).shows() == Some(mac) {
            let i = choose|i: int|
                0 <= i < entries.len() && (#[trigger] entries[i]).shows() == Some(mac);
            if i < before.len() {
                assert(before[i].shows() == Some(mac));
                let k = choose|k: int|
                    0 <= k < listed_macs(before).len() && listed_macs(before)[k] == mac;
                assert(listed[k] == mac);
            } else {
                assert(listed[listed.len() - 1] == mac);
            }
        }
    }
}

/// Once the preview of a display is in the image directory, under the name
/// that the store gives it, every listing of the directory shows the display.
pub proof fn stored_preview_is_listed(entries: Seq<StoreEntry>, mac: Seq<u8>, i: int)
    requires
        mac.len() == MAC_LEN,
        0 <= i < entries.len(),
        entries[i].is_file,
        entries[i].name@ == file_name(mac, AssetKind::Png),
    ensures
        listed_macs(entries).contains(mac),
{
    preview_name_shows_mac(mac);
    listed_iff_shown(entries, mac);
}

} // verus!
