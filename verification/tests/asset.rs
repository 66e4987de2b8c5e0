use eps_server::asset::{asset_file_name, list_macs, preview_address, AssetKind, StoreEntry};
use eps_server::mac::EpdMac;

fn file(name: &str) -> StoreEntry {
    StoreEntry::new(name.to_string(), true)
}

fn directory(name: &str) -> StoreEntry {
    StoreEntry::new(name.to_string(), false)
}

#[test]
fn extensions_start_with_a_dot() {
    assert_eq!(AssetKind::Svg.extension(), ".svg");
    assert_eq!(AssetKind::Bmp.extension(), ".bmp");
    assert_eq!(AssetKind::Png.extension(), ".png");
}

#[test]
fn file_names_are_lower_case_address_and_extension() {
    let mac = EpdMac([0xaa, 0xbb, 0xcc, 0xdd, 0x00, 0x11, 0x22, 0x33]);
    assert_eq!(asset_file_name(&mac, AssetKind::Svg), "aabbccdd00112233.svg");
    assert_eq!(asset_file_name(&mac, AssetKind::Bmp), "aabbccdd00112233.bmp");
    assert_eq!(asset_file_name(&mac, AssetKind::Png), "aabbccdd00112233.png");
    let other = EpdMac([0x12, 0x34, 0x56, 0x78, 0x9a, 0xbc, 0xde, 0xf1]);
    assert_eq!(asset_file_name(&other, AssetKind::Png), "123456789abcdef1.png");
}

#[test]
fn file_names_do_not_collide() {
    let macs = [
        EpdMac([0, 0, 0, 0, 0, 0, 0, 0]),
        EpdMac([0, 0, 0, 0, 0, 0, 0, 1]),
        EpdMac([1, 0, 0, 0, 0, 0, 0, 0]),
        EpdMac([0xff; 8]),
    ];
    let kinds = [AssetKind::Svg, AssetKind::Bmp, AssetKind::Png];
    let mut names = Vec::new();
    for mac in macs.iter() {
        for kind in kinds.iter() {
            names.push(asset_file_name(mac, *kind));
        }
    }
    for i in 0..names.len() {
        assert_eq!(names[i].len(), 20);
        for j in 0..i {
            assert_ne!(names[i], names[j]);
        }
    }
}

#[test]
fn preview_address_reads_the_stem() {
    assert_eq!(
        preview_address("0011223344556677.png"),
        Some(EpdMac([0x00, 0x11, 0x22, 0x33, 0x44, 0x55, 0x66, 0x77]))
    );
    assert_eq!(
        preview_address("AABBCCDDEEFFAABB.png"),
        Some(EpdMac([0xaa, 0xbb, 0xcc, 0xdd, 0xee, 0xff, 0xaa, 0xbb]))
    );
}

#[test]
fn preview_address_passes_over_other_names() {
    for name in [
        "",
        ".png",
        "png",
        "0011223344556677",
        "0011223344556677.",
        "0011223344556677.svg",
        "0011223344556677.bmp",
        "0011223344556677.PNG",
        "0011223344556677.pn",
        "0011223344556677.pngx",
        "0011223344556677.png.png",
        "00112233445566.png",
        "001122334455667788.png",
        "001122334455667z.png",
        "00112233.4556677.png",
        "0011223344556677png",
        "0011223344556677_png",
        "001122334455667é.png",
        "0011223344556677.pné",
        "+1+2+3+4+5+6+7+8.png",
    ] {
        assert_eq!(preview_address(name), None, "{name:?}");
    }
}

#[test]
fn entry_that_is_no_file_shows_nothing() {
    assert_eq!(
        file("0011223344556677.png").address(),
        Some(EpdMac([0x00, 0x11, 0x22, 0x33, 0x44, 0x55, 0x66, 0x77]))
    );
    assert_eq!(directory("0011223344556677.png").address(), None);
}

#[test]
fn listing_keeps_previews_in_order() {
    let entries = vec![
        file("aabbccddeeffaabb.svg"),
        file("aabbccddeeffaabb.png"),
        directory("1111111111111111.png"),
        file("notes.txt"),
        file("zzzzzzzzzzzzzzzz.png"),
        file("0011223344556677.png"),
        file("0011223344556677.bmp"),
        file("ffffffffffffffff.png"),
    ];
    let macs = list_macs(&entries);
    assert_eq!(
        macs,
        vec![
            EpdMac([0xaa, 0xbb, 0xcc, 0xdd, 0xee, 0xff, 0xaa, 0xbb]),
            EpdMac([0x00, 0x11, 0x22, 0x33, 0x44, 0x55, 0x66, 0x77]),
            EpdMac([0xff; 8]),
        ]
    );
}

#[test]
fn listing_of_nothing_is_empty() {
    assert_eq!(list_macs(&Vec::new()), Vec::new());
    assert_eq!(list_macs(&vec![file("readme"), directory("x")]), Vec::new());
}

#[test]
fn stored_preview_is_listed() {
    let mac = EpdMac([0x12, 0x34, 0x56, 0x78, 0x9a, 0xbc, 0xde, 0xf1]);
    let entries = vec![file("readme"), file(&asset_file_name(&mac, AssetKind::Png))];
    assert_eq!(list_macs(&entries), vec![mac]);
}
