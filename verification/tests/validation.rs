use levenshtein_rust::text::{contains_nul, is_valid_encoding, value_to_str};
use levenshtein_rust::{
    distance_ruby, ensure_valid_utf8, Argument, DistanceError, Encoding, ErrorKind, FailedCheck,
    HostValue,
};

fn utf8(bytes: &[u8]) -> HostValue<'_> {
    HostValue::Text { encoding: Encoding::Utf8, bytes }
}

#[test]
fn valid_text_is_handed_out_over_its_whole_length() {
    let bytes = "là 🦀".as_bytes();
    assert_eq!(ensure_valid_utf8(&utf8(bytes)), Ok("là 🦀"));
    assert_eq!(ensure_valid_utf8(&utf8(b"")), Ok(""));
}

#[test]
fn a_value_that_is_no_string_has_the_wrong_type() {
    assert_eq!(ensure_valid_utf8(&HostValue::NotText), Err(FailedCheck::Type));
    assert_eq!(FailedCheck::Type.kind(), ErrorKind::WrongType);
}

#[test]
fn a_string_declared_otherwise_is_an_invalid_encoding() {
    let value = HostValue::Text { encoding: Encoding::Other, bytes: b"abc" };
    assert_eq!(ensure_valid_utf8(&value), Err(FailedCheck::DeclaredEncoding));
    assert_eq!(FailedCheck::DeclaredEncoding.kind(), ErrorKind::InvalidEncoding);
}

#[test]
fn malformed_bytes_are_an_invalid_encoding() {
    let cases: [&[u8]; 7] = [
        &[0xff],
        &[0x61, 0x80],
        &[0xc3],
        &[0xc0, 0xaf],
        &[0xe0, 0x80, 0xaf],
        &[0xed, 0xa0, 0x80],
        &[0xf4, 0x90, 0x80, 0x80],
    ];
    for bytes in cases {
        assert!(!is_valid_encoding(bytes));
        assert_eq!(ensure_valid_utf8(&utf8(bytes)), Err(FailedCheck::ContentValidity));
        let refused = distance_ruby(&utf8(bytes), &utf8(b"abc"));
        assert_eq!(refused.map_err(|error| error.kind()), Err(ErrorKind::InvalidEncoding));
    }
    assert_eq!(FailedCheck::ContentValidity.kind(), ErrorKind::InvalidEncoding);
}

#[test]
fn well_formed_bytes_are_a_valid_encoding() {
    assert!(is_valid_encoding(b""));
    assert!(is_valid_encoding(b"abc"));
    assert!(is_valid_encoding("là".as_bytes()));
    assert!(is_valid_encoding("🦀".as_bytes()));
    assert!(is_valid_encoding(&[0x61, 0x00, 0x62]));
}

#[test]
fn a_zero_byte_is_found_wherever_it_stands() {
    assert!(contains_nul(&[0]));
    assert!(contains_nul(b"\0abc"));
    assert!(contains_nul(b"ab\0c"));
    assert!(contains_nul(b"abc\0"));
    assert!(!contains_nul(b"abc"));
    assert!(!contains_nul(b""));
}

#[test]
fn an_embedded_nul_is_refused_and_never_truncates() {
    let bytes = b"ab\0cd";
    assert_eq!(ensure_valid_utf8(&utf8(bytes)), Err(FailedCheck::EmbeddedTerminator));
    assert_eq!(FailedCheck::EmbeddedTerminator.kind(), ErrorKind::EmbeddedNul);
    // The text before the zero byte is "ab": no distance to it is reported.
    let refused = distance_ruby(&utf8(bytes), &utf8(b"ab"));
    assert_eq!(
        refused,
        Err(DistanceError { argument: Argument::First, failed: FailedCheck::EmbeddedTerminator })
    );
    let refused = distance_ruby(&utf8(b"ab"), &utf8(bytes));
    assert_eq!(
        refused,
        Err(DistanceError { argument: Argument::Second, failed: FailedCheck::EmbeddedTerminator })
    );
}

#[test]
fn the_first_failed_check_wins() {
    // Declared otherwise, malformed and holding a zero byte at once.
    let value = HostValue::Text { encoding: Encoding::Other, bytes: &[0xff, 0x00] };
    assert_eq!(ensure_valid_utf8(&value), Err(FailedCheck::DeclaredEncoding));
    // Malformed and holding a zero byte.
    assert_eq!(ensure_valid_utf8(&utf8(&[0xff, 0x00])), Err(FailedCheck::ContentValidity));
}

#[test]
fn reading_bytes_as_text_looks_for_the_zero_byte_first() {
    assert_eq!(value_to_str(b"abc"), Ok("abc"));
    assert_eq!(value_to_str("là".as_bytes()), Ok("là"));
    assert_eq!(value_to_str(b"a\0c"), Err(FailedCheck::EmbeddedTerminator));
    assert_eq!(value_to_str(&[0xff, 0x00]), Err(FailedCheck::EmbeddedTerminator));
    assert_eq!(value_to_str(&[0xff]), Err(FailedCheck::ContentValidity));
}

#[test]
fn a_call_with_two_valid_arguments_gives_their_distance() {
    assert_eq!(distance_ruby(&utf8(b"abc"), &utf8(b"azc")), Ok(1));
    assert_eq!(distance_ruby(&utf8(b"abc"), &utf8(b"acb")), Ok(2));
    assert_eq!(distance_ruby(&utf8(b""), &utf8(b"")), Ok(0));
    assert_eq!(distance_ruby(&utf8("la".as_bytes()), &utf8("là".as_bytes())), Ok(1));
    assert_eq!(distance_ruby(&utf8("🦀".as_bytes()), &utf8("🦁".as_bytes())), Ok(1));
}

#[test]
fn a_call_does_not_depend_on_the_order_of_valid_arguments() {
    let texts = ["", "abc", "kitten", "sitting", "là", "🦀"];
    for x in texts {
        for y in texts {
            assert_eq!(
                distance_ruby(&utf8(x.as_bytes()), &utf8(y.as_bytes())),
                distance_ruby(&utf8(y.as_bytes()), &utf8(x.as_bytes()))
            );
        }
    }
}

#[test]
fn the_first_argument_is_validated_first() {
    let wrong_type = HostValue::NotText;
    let malformed = utf8(&[0xff]);
    assert_eq!(
        distance_ruby(&wrong_type, &malformed),
        Err(DistanceError { argument: Argument::First, failed: FailedCheck::Type })
    );
    assert_eq!(
        distance_ruby(&malformed, &wrong_type),
        Err(DistanceError { argument: Argument::First, failed: FailedCheck::ContentValidity })
    );
    assert_eq!(
        distance_ruby(&utf8(b"abc"), &wrong_type),
        Err(DistanceError { argument: Argument::Second, failed: FailedCheck::Type })
    );
}

#[test]
fn an_error_names_its_argument_and_its_check() {
    let error = DistanceError { argument: Argument::First, failed: FailedCheck::Type };
    assert_eq!(error.kind(), ErrorKind::WrongType);
    assert_eq!(error.message(), "first argument: Expected a String");
    let error = DistanceError { argument: Argument::Second, failed: FailedCheck::DeclaredEncoding };
    assert_eq!(error.kind(), ErrorKind::InvalidEncoding);
    assert_eq!(error.message(), "second argument: Expected UTF-8 encoding");
    let error = DistanceError { argument: Argument::First, failed: FailedCheck::ContentValidity };
    assert_eq!(error.kind(), ErrorKind::InvalidEncoding);
    assert_eq!(error.message(), "first argument: Invalid UTF-8 in byte sequence");
    let error =
        DistanceError { argument: Argument::Second, failed: FailedCheck::EmbeddedTerminator };
    assert_eq!(error.kind(), ErrorKind::EmbeddedNul);
    assert_eq!(error.message(), "second argument: String contains embedded NUL bytes");
}

#[test]
fn labels_and_reasons_are_worded_one_by_one() {
    assert_eq!(Argument::First.label(), "first argument");
    assert_eq!(Argument::Second.label(), "second argument");
    assert_eq!(FailedCheck::Type.reason(), "Expected a String");
    assert_eq!(FailedCheck::EmbeddedTerminator.reason(), "String contains embedded NUL bytes");
}
