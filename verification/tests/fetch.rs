use chainx_cli::fetch::{
    blob_from_document, blob_from_hex, blob_from_response, FetchError, RawMetadataBlob,
};
use chainx_cli::metadata::VersionedMetadata;
use chainx_cli::wire::DecodeError;

fn blob(bytes: &[u8]) -> RawMetadataBlob {
    RawMetadataBlob { bytes: bytes.to_vec() }
}

#[test]
fn hexadecimal_digits_spell_bytes() {
    assert_eq!(blob_from_hex("0x6d657461"), Ok(blob(&[0x6d, 0x65, 0x74, 0x61])));
    assert_eq!(blob_from_hex("6D657461"), Ok(blob(&[0x6d, 0x65, 0x74, 0x61])));
    assert_eq!(blob_from_hex("0x00ff10aBCdEf"), Ok(blob(&[0, 255, 16, 0xab, 0xcd, 0xef])));
    assert_eq!(blob_from_hex("0x"), Ok(blob(&[])));
    assert_eq!(blob_from_hex(""), Ok(blob(&[])));
}

#[test]
fn one_prefix_at_the_front_is_taken_off() {
    assert_eq!(blob_from_hex("0x12"), Ok(blob(&[0x12])));
    assert_eq!(blob_from_hex("12"), Ok(blob(&[0x12])));
    assert_eq!(blob_from_hex("0x0x12"), Err(FetchError::InvalidHex));
    assert_eq!(blob_from_hex("0x0x0x12"), Err(FetchError::InvalidHex));
    assert_eq!(blob_from_hex("0x0x6d6574"), Err(FetchError::InvalidHex));
    assert_eq!(blob_from_hex("0x0"), Err(FetchError::InvalidHex));
    assert_eq!(blob_from_hex("120x"), Err(FetchError::InvalidHex));
    assert_eq!(blob_from_hex("0X12"), Err(FetchError::InvalidHex));
}

#[test]
fn what_is_not_hexadecimal_is_refused() {
    assert_eq!(blob_from_hex("0x123"), Err(FetchError::InvalidHex));
    assert_eq!(blob_from_hex("0xzz"), Err(FetchError::InvalidHex));
    assert_eq!(blob_from_hex("0x12 34"), Err(FetchError::InvalidHex));
    assert_eq!(blob_from_hex("0xé1"), Err(FetchError::InvalidHex));
    assert_eq!(blob_from_hex("0x1g"), Err(FetchError::InvalidHex));
    assert_eq!(blob_from_hex("0x/0"), Err(FetchError::InvalidHex));
    assert_eq!(blob_from_hex("0x:0"), Err(FetchError::InvalidHex));
    assert_eq!(blob_from_hex("0x@0"), Err(FetchError::InvalidHex));
    assert_eq!(blob_from_hex("0xG0"), Err(FetchError::InvalidHex));
    assert_eq!(blob_from_hex("0x`0"), Err(FetchError::InvalidHex));
}

#[test]
fn the_result_member_holds_the_bytes() {
    let answer = "{\"jsonrpc\":\"2.0\",\"result\":\"0x6d6574610b\",\"id\":1}";
    assert_eq!(blob_from_response(answer), Ok(blob(&[0x6d, 0x65, 0x74, 0x61, 11])));
    let doc = serde_json::from_str::<serde_json::Value>(answer).ok();
    assert_eq!(blob_from_document(doc), Ok(blob(&[0x6d, 0x65, 0x74, 0x61, 11])));
}

#[test]
fn an_answer_without_a_text_result_is_refused() {
    for answer in [
        "{\"jsonrpc\":\"2.0\",\"id\":1}",
        "{\"result\":null}",
        "{\"result\":12}",
        "{\"result\":[\"0x00\"]}",
        "{\"Result\":\"0x00\"}",
        "{\"error\":{\"result\":\"0x00\"}}",
        "[\"result\"]",
        "\"result\"",
        "17",
    ] {
        assert_eq!(blob_from_response(answer), Err(FetchError::MissingResult), "{}", answer);
    }
}

#[test]
fn an_answer_that_is_not_json_is_refused() {
    for answer in ["", "{", "{\"result\":\"0x00\"", "result", "{result: \"0x00\"}"] {
        assert_eq!(blob_from_response(answer), Err(FetchError::MalformedEnvelope), "{}", answer);
    }
    assert_eq!(blob_from_document(None), Err(FetchError::MalformedEnvelope));
}

#[test]
fn a_result_that_is_not_hexadecimal_is_refused() {
    assert_eq!(blob_from_response("{\"result\":\"0xnothex\"}"), Err(FetchError::InvalidHex));
    assert_eq!(blob_from_response("{\"result\":\"0x123\"}"), Err(FetchError::InvalidHex));
}

#[test]
fn a_blob_decodes_as_its_bytes_do() {
    assert_eq!(blob(&[0x6d, 0x65, 0x74, 0x61, 11]).decode(), Err(DecodeError::UnsupportedVersion));
    assert_eq!(blob(&[0x6d, 0x65, 0x74]).decode(), Err(DecodeError::Truncated));
    let metadata = blob(&[0x6d, 0x65, 0x74, 0x61, 12, 0, 4, 0]).decode().unwrap();
    assert!(matches!(metadata, VersionedMetadata::V12(_)));
}
