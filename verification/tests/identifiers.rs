use xmip_core::generator::IdGenerator;
use xmip_core::uuid_text::canonical_text;
use xmip_core::{parse_uuid, JourneyId, MessageId, PartyId, StreamId, UuidV7Generator};

#[test]
fn a_bare_hex_string_is_refused() {
    let result = "01987cdf12347abc8def0123456789ab".parse::<MessageId>();

    assert!(result.is_err(), "got: {result:?}");
}

#[test]
fn identifiers_are_stable_values() {
    let id = MessageId::new(42);
    assert_eq!(id.value(), 42);
    assert_eq!(id.to_string().len(), 36);
    assert_eq!(id.to_string(), "00000000-0000-0000-0000-00000000002a");
}

#[test]
fn the_canonical_text_reads_back() {
    for value in [
        0u128,
        1,
        42,
        0x0198_7cdf_1234_7abc_8def_0123_4567_89ab,
        u128::MAX,
        1u128 << 127,
    ] {
        let id = JourneyId::new(value);
        let text = id.to_string();
        assert_eq!(text.parse::<JourneyId>(), Ok(id));
        assert_eq!(parse_uuid(&text), Ok(value));
    }
}

#[test]
fn the_canonical_text_is_grouped_and_lower_case() {
    assert_eq!(
        JourneyId::new(0x0198_7cdf_1234_7abc_8def_0123_4567_89ab).to_string(),
        "01987cdf-1234-7abc-8def-0123456789ab"
    );
    assert_eq!(canonical_text(u128::MAX), "ffffffff-ffff-ffff-ffff-ffffffffffff");
    assert_eq!(canonical_text(0), "00000000-0000-0000-0000-000000000000");
}

#[test]
fn surrounding_white_space_is_ignored_and_case_is_not_significant() {
    assert_eq!(
        parse_uuid("  01987CDF-1234-7ABC-8DEF-0123456789AB\n\t"),
        Ok(0x0198_7cdf_1234_7abc_8def_0123_4567_89ab)
    );
    assert_eq!(
        parse_uuid("\u{3000}00000000-0000-0000-0000-00000000002a\u{a0}"),
        Ok(42)
    );
}

#[test]
fn a_text_of_the_wrong_shape_is_refused_and_named() {
    assert_eq!(
        parse_uuid(" 01987cdf12347abc8def0123456789ab "),
        Err("'01987cdf12347abc8def0123456789ab' is not a UUID in 8-4-4-4-12 form".to_string())
    );
    assert_eq!(
        parse_uuid("01987cdf-12347-abc-8def-0123456789ab"),
        Err("'01987cdf-12347-abc-8def-0123456789ab' is not a UUID in 8-4-4-4-12 form".to_string())
    );
    assert_eq!(
        parse_uuid(""),
        Err("'' is not a UUID in 8-4-4-4-12 form".to_string())
    );
}

#[test]
fn a_text_of_the_right_shape_that_is_not_hexadecimal_is_refused_and_named() {
    assert_eq!(
        parse_uuid("01987cdg-1234-7abc-8def-0123456789ab"),
        Err("'01987cdg-1234-7abc-8def-0123456789ab' is not hexadecimal".to_string())
    );
    assert_eq!(
        parse_uuid("------------------------------------"),
        Err("'------------------------------------' is not hexadecimal".to_string())
    );
    assert_eq!(
        "01987cdf-1234-7abc-8def-0123456789a-".parse::<StreamId>(),
        Err("'01987cdf-1234-7abc-8def-0123456789a-' is not hexadecimal".to_string())
    );
}

#[test]
fn a_sign_or_a_hyphen_where_a_digit_belongs_is_refused() {
    assert_eq!(
        parse_uuid("-0000000-0000-0000-0000-000000000000"),
        Err("'-0000000-0000-0000-0000-000000000000' is not hexadecimal".to_string())
    );
    assert_eq!(
        parse_uuid("+0000000-0000-0000-0000-000000000000"),
        Err("'+0000000-0000-0000-0000-000000000000' is not hexadecimal".to_string())
    );
    assert!(parse_uuid("00000000-0000-0000-0000-0000000000+1").is_err());
    assert!(parse_uuid("00000000-0000-0000-0000-00000000000\u{e9}").is_err());
    assert_eq!(parse_uuid("00000000-0000-0000-0000-000000000000"), Ok(0));
}

#[test]
fn ids_sort_by_value() {
    assert!(PartyId::new(1) < PartyId::new(2));
    assert!(PartyId::new(u128::MAX) > PartyId::new(1 << 127));
}

#[test]
fn generated_identifiers_are_uuid_v7() {
    let generator = UuidV7Generator;
    let first = JourneyId::new(generator.next_u128());
    let version = (first.value() >> 76) & 0xf;
    assert_eq!(version, 7, "identifiers must be UUIDv7");
    let variant = (first.value() >> 62) & 0x3;
    assert_eq!(variant, 2);
}
