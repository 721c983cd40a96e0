use doc_maker::b64::encode_output;
use doc_maker::payload::{decode_payload, PayloadError};

#[test]
fn decodes_a_valid_data_uri() {
    let r = decode_payload("data:image/png;base64,TWFu");
    assert_eq!(r, Ok(vec![b'M', b'a', b'n']));
}

#[test]
fn round_trip_reassembles_the_input() {
    let input = "data:image/png;base64,iVBORw0KGgoAAAANSUhEUgAAAAoAAAAUCAIAAAA7jDsB";
    let decoded = decode_payload(input).unwrap();
    let rebuilt = format!("data:image/png;base64,{}", encode_output(&decoded));
    assert_eq!(rebuilt, input);
}

#[test]
fn missing_marker_is_reported() {
    assert_eq!(decode_payload("not-a-data-uri"), Err(PayloadError::MissingMarker));
}

#[test]
fn bare_base64_without_marker_is_rejected() {
    assert_eq!(decode_payload("TWFu"), Err(PayloadError::MissingMarker));
}

#[test]
fn empty_input_is_missing_marker() {
    assert_eq!(decode_payload(""), Err(PayloadError::MissingMarker));
}

#[test]
fn invalid_base64_is_reported() {
    assert_eq!(decode_payload("data:image/png;base64,!!!!"), Err(PayloadError::InvalidBase64));
}

#[test]
fn non_canonical_length_is_rejected() {
    assert_eq!(decode_payload("data:image/png;base64,TWF"), Err(PayloadError::InvalidBase64));
}

#[test]
fn payload_is_everything_after_the_first_marker() {
    // The text after the first marker still holds the second marker, so it
    // is not valid base64.
    assert_eq!(decode_payload("a;base64,b;base64,TWFu"), Err(PayloadError::InvalidBase64));
}

#[test]
fn non_ascii_header_before_the_marker_is_accepted() {
    assert_eq!(decode_payload("dätá:image/png;base64,TWFu"), Ok(vec![b'M', b'a', b'n']));
}

#[test]
fn empty_payload_after_marker_decodes_to_no_bytes() {
    assert_eq!(decode_payload("data:image/png;base64,"), Ok(vec![]));
}
