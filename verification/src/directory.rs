//! The image directory as the store sees it: the set of the names of its
//! regular files. The store itself keeps no state; what its operations mean
//! for the directory is stated here, for a file system on which a file can be
//! removed exactly when it is there, and written whenever asked.

use crate::asset::{
    file_name, file_name_is_injective, listed_iff_shown, listed_macs, preview_mac,
    preview_name_shows_mac, AssetKind, StoreEntry,
};
use crate::mac::MAC_LEN;
use vstd::prelude::*;

verus! {

/// The directory holds the file of kind `kind` of the display `mac`.
pub open spec fn holds(dir: Set<Seq<char>>, mac: Seq<u8>, kind: AssetKind) -> bool {
    dir.contains(file_name(mac, kind))
}

/// The directory holds at least one file of the display `mac`.
pub open spec fn has_images(dir: Set<Seq<char>>, mac: Seq<u8>) -> bool {
    holds(dir, mac, AssetKind::Svg) || holds(dir, mac, AssetKind::Bmp) || holds(
        dir,
        mac,
        AssetKind::Png,
    )
}

/// A listing of the directory shows the display `mac`: one of the files is
/// named as a preview of `mac`.
pub open spec fn shows(dir: Set<Seq<char>>, mac: Seq<u8>) -> bool {
    exists|name: Seq<char>| #[trigger] dir.contains(name) && preview_mac(name) == Some(mac)
}

/// The directory that a listing was made of: the names of the entries that
/// are regular files.
pub open spec fn files_of(entries: Seq<StoreEntry>) -> Set<Seq<char>> {
    Set::new(
        |name: Seq<char>|
            exists|i: int|
                0 <= i < entries.len() && (#[trigger] entries[i]).is_file && entries[i].name@
                    == name,
    )
}

/// Whether the removal of a display's images has succeeded, from what became
/// of the removal of the document, of the bitmap and of the preview: it has
/// where at least one file was removed.
pub open spec fn removal_succeeded(svg_removed: bool, bmp_removed: bool, png_removed: bool) -> bool {
    svg_removed || bmp_removed || png_removed
}

/// Whether removing the images of `mac` from the directory `dir` succeeds:
/// each of the three files is removed exactly when it is there.
pub open spec fn delete_succeeds(dir: Set<Seq<char>>, mac: Seq<u8>) -> bool {
    removal_succeeded(
        holds(dir, mac, AssetKind::Svg),
        holds(dir, mac, AssetKind::Bmp),
        holds(dir, mac, AssetKind::Png),
    )
}

/// The directory after the images of `mac` were removed from it.
pub open spec fn after_delete(dir: Set<Seq<char>>, mac: Seq<u8>) -> Set<Seq<char>> {
    dir.remove(file_name(mac, AssetKind::Svg)).remove(file_name(mac, AssetKind::Bmp)).remove(
        file_name(mac, AssetKind::Png),
    )
}

/// The directory after a rendered image of `mac` was written to it: the
/// preview first, then the document.
pub open spec fn after_store(dir: Set<Seq<char>>, mac: Seq<u8>) -> Set<Seq<char>> {
    dir.insert(file_name(mac, AssetKind::Png)).insert(file_name(mac, AssetKind::Svg))
}

/// The displays that the store lists are those that the directory shows.
pub proof fn listed_iff_directory_shows(entries: Seq<StoreEntry>, mac: Seq<u8>)
    ensures
        listed_macs(entries).contains(mac) <==> shows(files_of(entries), mac),
{
    listed_iff_shown(entries, mac);
    if listed_macs(entries).contains(mac) {
        let i = choose|i: int|
            0 <= i < entries.len() && (#[trigger] entries[i]).shows() == Some(mac);
        assert(files_of(entries).contains(entries[i].name@));
    }
    if shows(files_of(entries), mac) {
        let name = choose|name: Seq<char>|
            #[trigger] files_of(entries).contains(name) && preview_mac(name) == Some(mac);
        let i = choose|i: int|
            0 <= i < entries.len() && (#[trigger] entries[i]).is_file && entries[i].name@ == name;
        assert(entries[i].shows() == Some(mac));
    }
}

/// After an image of a display was stored, a listing of the directory shows
/// the display, and the directory holds its preview and its document.
pub proof fn stored_is_shown(dir: Set<Seq<char>>, mac: Seq<u8>)
    requires
        mac.len() == MAC_LEN,
    ensures
        holds(after_store(dir, mac), mac, AssetKind::Png),
        holds(after_store(dir, mac), mac, AssetKind::Svg),
        shows(after_store(dir, mac), mac),
{
    preview_name_shows_mac(mac);
}

/// Removing the images of a display succeeds exactly when the directory
/// holds one of them: with only the preview there it succeeds, and with no
/// file of the display there it fails.
pub proof fn delete_succeeds_iff_present(dir: Set<Seq<char>>, mac: Seq<u8>)
    ensures
        delete_succeeds(dir, mac) <==> has_images(dir, mac),
        holds(dir, mac, AssetKind::Png) ==> delete_succeeds(dir, mac),
{
}

/// After the images of a display were removed, the directory holds none of
/// them, so that removing them once more fails: of two removals in a row the
/// second finds nothing.
pub proof fn delete_twice_fails(dir: Set<Seq<char>>, mac: Seq<u8>)
    ensures
        !has_images(after_delete(dir, mac), mac),
        !delete_succeeds(after_delete(dir, mac), mac),
{
}

/// A display without a file in the directory that is named as one of its
/// previews is not shown, and a display is shown once its preview is there
/// under the name that the store gives it.
pub proof fn shown_iff_preview(dir: Set<Seq<char>>, mac: Seq<u8>)
    requires
        mac.len() == MAC_LEN,
    ensures
        holds(dir, mac, AssetKind::Png) ==> shows(dir, mac),
        (forall|name: Seq<char>| #[trigger] dir.contains(name) ==> preview_mac(name) != Some(mac))
            ==> !shows(dir, mac),
{
    preview_name_shows_mac(mac);
}

/// Storing or removing the images of one display leaves the files of every
/// other display as they were.
pub proof fn other_displays_untouched(dir: Set<Seq<char>>, mac: Seq<u8>, other: Seq<u8>, kind: AssetKind)
    requires
        mac.len() == MAC_LEN,
        other.len() == MAC_LEN,
        mac != other,
    ensures
        holds(after_delete(dir, mac), other, kind) == holds(dir, other, kind),
        holds(after_store(dir, mac), other, kind) == holds(dir, other, kind),
{
    if file_name(other, kind) == file_name(mac, AssetKind::Svg) {
        file_name_is_injective(other, kind, mac, AssetKind::Svg);
    }
    if file_name(other, kind) == file_name(mac, AssetKind::Bmp) {
        file_name_is_injective(other, kind, mac, AssetKind::Bmp);
    }
    if file_name(other, kind) == file_name(mac, AssetKind::Png) {
        file_name_is_injective(other, kind, mac, AssetKind::Png);
    }
}

/// A stored image is removed as a whole: after the removal the display is
/// where it was before anything was stored for it.
pub proof fn store_then_delete(dir: Set<Seq<char>>, mac: Seq<u8>)
    requires
        mac.len() == MAC_LEN,
    ensures
        delete_succeeds(after_store(dir, mac), mac),
        !has_images(after_delete(after_store(dir, mac), mac), mac),
{
}

} // verus!
