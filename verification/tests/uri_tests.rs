use story_mint::uri::{derive_uri, u64_to_dec_string};

#[test]
fn renders_decimal_digits() {
    assert_eq!(u64_to_dec_string(0), "0");
    assert_eq!(u64_to_dec_string(7), "7");
    assert_eq!(u64_to_dec_string(10), "10");
    assert_eq!(u64_to_dec_string(907), "907");
    assert_eq!(u64_to_dec_string(u64::MAX), "18446744073709551615");
}

#[test]
fn derives_metadata_location() {
    assert_eq!(
        derive_uri("https://cdn.example", 12),
        "https://cdn.example/12.json"
    );
    assert_eq!(derive_uri("", 1), "/1.json");
}
