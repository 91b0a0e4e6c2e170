use nuefi::string::{decode_lossy, encode_str, string_len, utf16_to_string_lossy, UefiStr, UefiString};

#[test]
fn encode_ascii() {
    assert_eq!(encode_str("Hi!"), vec![0x48, 0x69, 0x21]);
}

#[test]
fn encode_astral_as_surrogate_pair() {
    // U+1F600 is written as a surrogate pair
    assert_eq!(encode_str("\u{1F600}"), vec![0xD83D, 0xDE00]);
    assert_eq!(encode_str("a\u{e9}\u{10000}"), vec![0x61, 0xE9, 0xD800, 0xDC00]);
}

#[test]
fn encode_empty() {
    assert_eq!(encode_str(""), Vec::<u16>::new());
}

#[test]
fn encode_matches_std() {
    let s = "Hello, \u{4e16}\u{754c} \u{1F30D}!";
    let expected: Vec<u16> = s.encode_utf16().collect();
    assert_eq!(encode_str(s), expected);
}

#[test]
fn decode_valid_pairs() {
    assert_eq!(decode_lossy(&[0xD83D, 0xDE00, 0x41]), vec!['\u{1F600}', 'A']);
}

#[test]
fn decode_unpaired_surrogates_are_replaced() {
    assert_eq!(decode_lossy(&[0xD800]), vec!['\u{FFFD}']);
    assert_eq!(decode_lossy(&[0xDC00, 0x41]), vec!['\u{FFFD}', 'A']);
    assert_eq!(decode_lossy(&[0xD800, 0x41]), vec!['\u{FFFD}', 'A']);
    assert_eq!(decode_lossy(&[0xD800, 0xD800, 0xDC00]), vec!['\u{FFFD}', '\u{10000}']);
}

#[test]
fn lossy_string_matches_std() {
    let units = [0x48, 0xD800, 0x69, 0xD83D, 0xDE00, 0xDFFF];
    assert_eq!(utf16_to_string_lossy(&units), String::from_utf16_lossy(&units));
    assert_eq!(utf16_to_string_lossy(&units), "H\u{FFFD}i\u{1F600}\u{FFFD}");
}

#[test]
fn length_up_to_first_nul() {
    assert_eq!(string_len(&[0x41, 0x42, 0, 0x43, 0]), 2);
    assert_eq!(string_len(&[0]), 0);
}

#[test]
fn uefi_string_new_ends_in_nul() {
    let s = UefiString::new("EFI");
    let v = s.as_uefi_str();
    assert_eq!(v.as_slice_with_nul(), &[0x45, 0x46, 0x49, 0]);
    assert_eq!(v.as_slice(), &[0x45, 0x46, 0x49]);
}

#[test]
fn uefi_string_roundtrip() {
    for text in ["", "boot", "\u{e9}t\u{e9}", "\u{1F600} smile"] {
        let s = UefiString::new(text);
        assert_eq!(s.as_uefi_str().into_string(), text);
        assert_eq!(s.as_uefi_str().to_string_lossy(), text);
    }
}

#[test]
fn uefi_string_from_ptr_stops_at_nul() {
    let buf = [0x61, 0x62, 0, 0x63, 0];
    let s = UefiString::from_ptr(&buf);
    assert_eq!(s.as_uefi_str().as_slice_with_nul(), &[0x61, 0x62, 0]);
    assert_eq!(s.as_uefi_str().into_string(), "ab");
}

#[test]
fn uefi_string_from_ptr_len() {
    let buf = [0x61, 0x62, 0, 0x63, 0];
    let s = UefiString::from_ptr_len(&buf, 5);
    assert_eq!(s.as_uefi_str().as_slice(), &[0x61, 0x62, 0, 0x63]);
}

#[test]
fn uefi_str_from_ptr() {
    let buf = [0x78, 0, 0x79];
    let s = UefiStr::from_ptr(&buf);
    assert_eq!(s.as_slice_with_nul(), &[0x78, 0]);
    assert_eq!(s.to_string_lossy(), "x");
    let t = UefiStr::from_ptr_len(&buf, 2);
    assert_eq!(t.as_slice(), &[0x78]);
}

#[test]
fn uefi_str_lossy_replaces_surrogate() {
    let buf = [0x61, 0xDC00, 0];
    let s = UefiStr::from_ptr(&buf);
    assert_eq!(s.to_string_lossy(), "a\u{FFFD}");
}
