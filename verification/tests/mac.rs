use eps_server::error::AppError;
use eps_server::mac::EpdMac;

#[test]
fn mac_from_str() {
    let exp = EpdMac([0xaa, 0xbb, 0xcc, 0xdd, 0x00, 0x11, 0x22, 0x33]);
    let m1: EpdMac = "aabbccdd00112233".parse().unwrap();
    assert_eq!(m1, exp);
}

#[test]
fn mac_from_str_invalid() {
    assert!("00112233445566".parse::<EpdMac>().is_err());
    assert!("001122334455667z".parse::<EpdMac>().is_err());
}

#[test]
fn mac_display() {
    let mac = EpdMac([0xaa, 0xbb, 0xcc, 0xdd, 0x00, 0x11, 0x22, 0x33]).to_string();
    assert_eq!(format!("{mac}"), "AABBCCDD00112233".to_string());
}

#[test]
fn mac_parse_accepts_either_case() {
    let lower = EpdMac::parse("0123456789abcdef").unwrap();
    let upper = EpdMac::parse("0123456789ABCDEF").unwrap();
    let mixed = EpdMac::parse("0123456789aBcDeF").unwrap();
    let exp = EpdMac([0x01, 0x23, 0x45, 0x67, 0x89, 0xab, 0xcd, 0xef]);
    assert_eq!(lower, exp);
    assert_eq!(upper, exp);
    assert_eq!(mixed, exp);
}

#[test]
fn mac_format_uppercases_what_was_parsed() {
    let text = "a1b2c3d4e5f60708";
    let mac = EpdMac::parse(text).unwrap();
    assert_eq!(mac.to_string(), "A1B2C3D4E5F60708");
    assert_eq!(mac.to_string(), text.to_uppercase());
    let again = EpdMac::parse(&mac.to_string()).unwrap();
    assert_eq!(again, mac);
    assert_eq!(again.to_string(), mac.to_string());
}

#[test]
fn mac_file_stem_is_lower_case() {
    let mac = EpdMac::parse("AABBCCDDEEFF0A1B").unwrap();
    assert_eq!(mac.file_stem(), "aabbccddeeff0a1b");
    assert_eq!(EpdMac::parse(&mac.file_stem()).unwrap(), mac);
}

#[test]
fn mac_wrong_length_is_refused() {
    for text in ["", "0", "00112233445566", "001122334455667", "00112233445566778", "0011223344556677889"] {
        match EpdMac::parse(text) {
            Err(AppError::InvalidAddress(words)) => assert_eq!(words, "Mac must be 8 bytes long!"),
            other => panic!("{text:?} gave {other:?}"),
        }
    }
}

#[test]
fn mac_bad_digit_is_refused() {
    for text in [
        "001122334455667z",
        "g011223344556677",
        "0011223344 56677",
        "+1+2+3+4+5+6+7+8",
        "-011223344556677",
        "0x11223344556677",
        "00112233445566.7",
    ] {
        match EpdMac::parse(text) {
            Err(AppError::InvalidAddress(words)) => {
                assert_eq!(words, format!("Could not parse MAC from {text}"))
            }
            other => panic!("{text:?} gave {other:?}"),
        }
    }
}

#[test]
fn mac_non_ascii_is_refused() {
    // Sixteen characters, one of them outside ASCII.
    let sixteen = "001122334455667é";
    assert_eq!(sixteen.chars().count(), 16);
    match EpdMac::parse(sixteen) {
        Err(AppError::InvalidAddress(words)) => {
            assert_eq!(words, format!("Could not parse MAC from {sixteen}"))
        }
        other => panic!("gave {other:?}"),
    }
    // Sixteen bytes, but fewer characters.
    let bytes = "00112233445566é";
    assert_eq!(bytes.len(), 16);
    match EpdMac::parse(bytes) {
        Err(AppError::InvalidAddress(words)) => assert_eq!(words, "Mac must be 8 bytes long!"),
        other => panic!("gave {other:?}"),
    }
}

#[test]
fn mac_order_is_byte_wise() {
    let a = EpdMac::parse("0011223344556677").unwrap();
    let b = EpdMac::parse("AABBCCDDEEFFAABB").unwrap();
    let c = EpdMac::parse("00112233445566FF").unwrap();
    assert!(a < b);
    assert!(a < c);
    assert!(c < b);
    assert_eq!(a, EpdMac::parse("0011223344556677").unwrap());
    assert_ne!(a, c);
}

#[test]
fn error_status_and_text() {
    let e = AppError::StoreUnavailable("disk full".to_string());
    assert_eq!(e.status_code(), 500);
    assert_eq!(e.to_string(), "disk full");
    let e = AppError::AssetNotFound("no such image".to_string());
    assert_eq!(e.status_code(), 404);
    assert_eq!(e.to_string(), "no such image");
    let e = AppError::InvalidAddress("bad address".to_string());
    assert_eq!(e.status_code(), 400);
    assert_eq!(e.to_string(), "bad address");
    let e = AppError::InvalidVectorInput("bad drawing".to_string());
    assert_eq!(e.status_code(), 400);
    assert_eq!(e.to_string(), "bad drawing");
}
