use mongodb::bson::oid::ObjectId;
use recipe_service::identifier::RecipeId;

const SAMPLE: [u8; 12] = [0x65, 0xa1, 0x0f, 0x00, 0xff, 0x12, 0x34, 0x56, 0x78, 0x9a, 0xbc, 0xde];

#[test]
fn parse_reads_lower_case_digits() {
    let id = RecipeId::parse_str("65a10f00ff123456789abcde");
    assert_eq!(id, Some(RecipeId { bytes: SAMPLE }));
}

#[test]
fn parse_reads_upper_case_digits() {
    let id = RecipeId::parse_str("65A10F00FF123456789ABCDE");
    assert_eq!(id, Some(RecipeId { bytes: SAMPLE }));
}

#[test]
fn parse_reads_mixed_case_digits() {
    let id = RecipeId::parse_str("0123456789abcdefABCDEF00");
    let expected = [0x01, 0x23, 0x45, 0x67, 0x89, 0xab, 0xcd, 0xef, 0xab, 0xcd, 0xef, 0x00];
    assert_eq!(id, Some(RecipeId { bytes: expected }));
}

#[test]
fn parse_refuses_short_text() {
    assert_eq!(RecipeId::parse_str("65a10f00ff123456789abcd"), None);
    assert_eq!(RecipeId::parse_str("65a10f00ff123456789abc"), None);
    assert_eq!(RecipeId::parse_str(""), None);
}

#[test]
fn parse_refuses_long_text() {
    assert_eq!(RecipeId::parse_str("65a10f00ff123456789abcde0"), None);
    assert_eq!(RecipeId::parse_str("65a10f00ff123456789abcde00"), None);
}

#[test]
fn parse_refuses_other_characters() {
    assert_eq!(RecipeId::parse_str("65a10f00ff123456789abcdg"), None);
    assert_eq!(RecipeId::parse_str("65a10f00ff12 456789abcde"), None);
    assert_eq!(RecipeId::parse_str("not-an-identifier-at-all"), None);
}

#[test]
fn parse_refuses_text_that_is_not_ascii() {
    // twenty-four characters, but not twenty-four digits
    assert_eq!(RecipeId::parse_str("65a10f00ff123456789abcdé"), None);
    // twenty-four bytes, fewer characters
    assert_eq!(RecipeId::parse_str("é5a10f00ff123456789abcd"), None);
}

#[test]
fn parse_refuses_the_display_form_of_a_document_value() {
    assert_eq!(RecipeId::parse_str("ObjectId(\"65a10f00ff123456789abcde\")"), None);
}

#[test]
fn to_hex_writes_lower_case_digits() {
    let id = RecipeId { bytes: SAMPLE };
    assert_eq!(id.to_hex(), "65a10f00ff123456789abcde");
}

#[test]
fn to_hex_writes_leading_zeroes() {
    let id = RecipeId { bytes: [0; 12] };
    assert_eq!(id.to_hex(), "000000000000000000000000");
    let id = RecipeId { bytes: [0, 1, 2, 3, 4, 5, 6, 7, 8, 9, 10, 11] };
    assert_eq!(id.to_hex(), "000102030405060708090a0b");
}

#[test]
fn to_hex_then_parse_gives_the_identifier_back() {
    let samples = [SAMPLE, [0; 12], [0xff; 12], [0, 1, 2, 3, 4, 5, 6, 7, 8, 9, 10, 11]];
    for bytes in samples {
        let id = RecipeId { bytes };
        assert_eq!(RecipeId::parse_str(&id.to_hex()), Some(id));
    }
}

#[test]
fn text_form_agrees_with_the_document_library() {
    let oid = ObjectId::new();
    let id = RecipeId { bytes: oid.bytes() };
    assert_eq!(id.to_hex(), oid.to_hex());
    assert_eq!(RecipeId::parse_str(&oid.to_hex()), Some(id));
}

#[test]
fn same_compares_all_twelve_bytes() {
    let a = RecipeId { bytes: SAMPLE };
    let mut other = SAMPLE;
    other[11] = 0xdf;
    let b = RecipeId { bytes: other };
    let mut first = SAMPLE;
    first[0] = 0x66;
    let c = RecipeId { bytes: first };
    assert!(a.same(&a));
    assert!(a.same(&RecipeId { bytes: SAMPLE }));
    assert!(!a.same(&b));
    assert!(!b.same(&a));
    assert!(!a.same(&c));
}
