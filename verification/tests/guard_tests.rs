use image_intake::error::UploadError;
use image_intake::guard::parse_content_length;
use image_intake::guard::size_guard;
use image_intake::guard::MAX_CONTENT_LENGTH;

#[test]
fn ceiling_is_ten_mebibytes() {
    assert_eq!(MAX_CONTENT_LENGTH, 10_485_760);
}

#[test]
fn parses_plain_digits() {
    assert_eq!(parse_content_length(b"0"), Some(0));
    assert_eq!(parse_content_length(b"12345"), Some(12345));
    assert_eq!(parse_content_length(b"007"), Some(7));
}

#[test]
fn parses_a_leading_plus() {
    assert_eq!(parse_content_length(b"+5"), Some(5));
}

#[test]
fn rejects_what_is_no_number() {
    assert_eq!(parse_content_length(b""), None);
    assert_eq!(parse_content_length(b"+"), None);
    assert_eq!(parse_content_length(b"-1"), None);
    assert_eq!(parse_content_length(b"12a"), None);
    assert_eq!(parse_content_length(b" 12"), None);
    assert_eq!(parse_content_length(b"1.5"), None);
    assert_eq!(parse_content_length(b"++1"), None);
}

#[test]
fn saturates_beyond_sixty_four_bits() {
    assert_eq!(parse_content_length(b"18446744073709551615"), Some(u64::MAX));
    assert_eq!(parse_content_length(b"18446744073709551616"), Some(u64::MAX));
    assert_eq!(parse_content_length(b"999999999999999999999999999999"), Some(u64::MAX));
    assert_eq!(parse_content_length(b"18446744073709551614"), Some(u64::MAX - 1));
}

#[test]
fn a_digit_after_saturation_still_has_to_be_a_digit() {
    assert_eq!(parse_content_length(b"99999999999999999999999x"), None);
}

#[test]
fn guard_passes_up_to_the_ceiling() {
    assert_eq!(size_guard(Some(b"0")), Ok(()));
    assert_eq!(size_guard(Some(b"10485760")), Ok(()));
}

#[test]
fn guard_refuses_over_the_ceiling() {
    assert_eq!(size_guard(Some(b"10485761")), Err(UploadError::RequestTooLarge));
    assert_eq!(size_guard(Some(b"11534336")), Err(UploadError::RequestTooLarge));
    assert_eq!(
        size_guard(Some(b"999999999999999999999999999999")),
        Err(UploadError::RequestTooLarge)
    );
}

#[test]
fn guard_calls_a_missing_or_unreadable_length_malformed() {
    assert_eq!(size_guard(None), Err(UploadError::MalformedRequest));
    assert_eq!(size_guard(Some(b"")), Err(UploadError::MalformedRequest));
    assert_eq!(size_guard(Some(b"many")), Err(UploadError::MalformedRequest));
}

#[test]
fn every_error_has_its_status() {
    assert_eq!(UploadError::MalformedRequest.status_code(), 400);
    assert_eq!(UploadError::RequestTooLarge.status_code(), 413);
    assert_eq!(UploadError::UnsupportedFormat.status_code(), 415);
    assert_eq!(UploadError::DecodeFailure.status_code(), 500);
    assert_eq!(UploadError::StorageFailure.status_code(), 500);
    assert_eq!(UploadError::OutOfSequence.status_code(), 500);
}
