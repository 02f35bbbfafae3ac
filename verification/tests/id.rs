use kamipad::data::id::has_id_format;
use kamipad::data::ID;
use regex::Regex;

#[test]
fn test_id() {
    let id = ID::new();
    assert!(!id.is_nil());

    let id = ID::parse("645a9c23-9590-49d0-879e-250bff5b621a").unwrap();
    assert!(!id.is_nil());
    assert_eq!(id.to_string(), "645a9c23-9590-49d0-879e-250bff5b621a");
}

#[test]
fn test_id_randomness() {
    let id1 = ID::new();
    let id2 = ID::new();
    assert_ne!(id1, id2);
}

#[test]
fn test_nil_id() {
    let id = ID::nil();
    assert!(id.is_nil());
    assert_eq!(id.to_string(), "00000000-0000-0000-0000-000000000000");

    let id = ID::parse("00000000-0000-0000-0000-000000000000").unwrap();
    assert!(id.is_nil());
}

#[test]
fn test_parsing_format() {
    assert!(ID::parse("645a9c23-9590-49d0-879e-250bff5b621a").is_some());
    assert!(ID::parse("645A9C23-9590-49D0-879E-250BFF5B621A").is_none());
    assert!(ID::parse("645a9c23-9590-49d0-879e-250bff5b621aF").is_none());
    assert!(ID::parse("645a9c23-9590-49d0-879e-250bff5b621").is_none());
    assert!(ID::parse("645a9c23959049d0879e250bff5b621a").is_none());
}

#[test]
fn parse_gives_the_number_that_the_digits_spell() {
    let id = ID::parse("00000000-0000-0000-0000-000000000001").unwrap();
    let one = ID::parse("00000000-0000-0000-0000-000000000001").unwrap();
    let sixteen = ID::parse("00000000-0000-0000-0000-000000000010").unwrap();
    let top = ID::parse("10000000-0000-0000-0000-000000000000").unwrap();
    assert_eq!(id, one);
    assert!(one < sixteen);
    assert!(sixteen < top);
    assert!(ID::nil() < one);
    assert_eq!(top.to_string(), "10000000-0000-0000-0000-000000000000");
    let all = ID::parse("ffffffff-ffff-ffff-ffff-ffffffffffff").unwrap();
    assert!(top < all);
    assert_eq!(all.to_string(), "ffffffff-ffff-ffff-ffff-ffffffffffff");
    let mixed = ID::parse("01234567-89ab-cdef-0123-456789abcdef").unwrap();
    assert_eq!(mixed.to_string(), "01234567-89ab-cdef-0123-456789abcdef");
}

#[test]
fn text_of_a_new_id_reads_back_as_the_same_id() {
    let id = ID::new();
    let text = id.to_string();
    assert_eq!(text.len(), 36);
    assert!(has_id_format(text.as_bytes()));
    assert_eq!(ID::parse(&text).unwrap(), id);
    // Version 4, variant of RFC 4122.
    assert_eq!(text.as_bytes()[14], b'4');
    assert!(matches!(text.as_bytes()[19], b'8' | b'9' | b'a' | b'b'));
}

#[test]
fn format_check_agrees_with_the_pattern() {
    let pattern = Regex::new(r"^[0-9a-f]{8}(-[0-9a-f]{4}){3}-[0-9a-f]{12}$").unwrap();
    let samples = [
        "",
        "-",
        "645a9c23-9590-49d0-879e-250bff5b621a",
        "645a9c23-9590-49d0-879e-250bff5b621a\n",
        "\n645a9c23-9590-49d0-879e-250bff5b621a",
        " 645a9c23-9590-49d0-879e-250bff5b621a",
        "645a9c23-9590-49d0-879e-250bff5b621",
        "645a9c23-9590-49d0-879e-250bff5b621aa",
        "645a9c23+9590-49d0-879e-250bff5b621a",
        "645a9c239-590-49d0-879e-250bff5b621a",
        "645a9c23-959-049d0-879e-250bff5b621a",
        "645a9c23-9590-49d0-879e250bff5b621a-",
        "645a9c23-9590-49d0-879e-250bff5b621g",
        "645a9c23-9590-49d0-879e-250bff5b621A",
        "645a9c23-9590-49d0-879e-250bff5b621/",
        "645a9c23-9590-49d0-879e-250bff5b621:",
        "645a9c23-9590-49d0-879e-250bff5b621`",
        "------------------------------------",
        "0000000000000000000000000000000000000",
        "000000000000000000000000000000000000",
        "urn:uuid:645a9c23-9590-49d0-879e-250bff5b621a",
        "{645a9c23-9590-49d0-879e-250bff5b621a}",
        "645a9c23-9590-49d0-879e-250bff5b62é",
        "ffffffff-ffff-ffff-ffff-ffffffffffff",
        "00000000-0000-0000-0000-000000000000",
    ];
    for sample in samples {
        assert_eq!(
            has_id_format(sample.as_bytes()),
            pattern.is_match(sample),
            "{:?}",
            sample
        );
        assert_eq!(ID::parse(sample).is_some(), pattern.is_match(sample), "{:?}", sample);
    }
}
