use vidsync::codec::{decode, encode, error_reply, DecodeError, IncomingRequest};
use vidsync::server::ServerCommand;

fn cs(s: &str) -> Vec<char> {
    s.chars().collect()
}

#[test]
fn decode_sendstate_exact() {
    let frame = cs("{\"SendState\":{\"time\":12.5,\"uid\":0,\"playing\":true}}");
    match decode(&frame) {
        Ok(IncomingRequest::SendState(d)) => {
            assert_eq!(d.time, cs("12.5"));
            assert_eq!(d.uid, 0);
            assert!(d.playing);
        }
        other => panic!("expected SendState, got {:?}", other.is_ok()),
    }
}

#[test]
fn decode_getstate() {
    let frame = cs("\"GetState\"");
    assert!(matches!(decode(&frame), Ok(IncomingRequest::GetState)));
}

#[test]
fn decode_allows_whitespace_between_tokens() {
    let frame = cs(" { \"SendState\" : { \"time\" : -0.5e+2 , \"uid\" : 65535 , \"playing\" : false } } ");
    match decode(&frame) {
        Ok(IncomingRequest::SendState(d)) => {
            assert_eq!(d.time, cs("-0.5e+2"));
            assert_eq!(d.uid, 65535);
            assert!(!d.playing);
        }
        _ => panic!("expected SendState"),
    }
}

#[test]
fn decode_getstate_allows_surrounding_whitespace() {
    let frame = cs("  \"GetState\" \n");
    assert!(matches!(decode(&frame), Ok(IncomingRequest::GetState)));
}

#[test]
fn decode_banana_is_invalid_structure() {
    let frame = cs("banana");
    assert!(matches!(decode(&frame), Err(DecodeError::InvalidStructure)));
}

#[test]
fn decode_empty_is_invalid_structure() {
    let frame = cs("");
    assert!(matches!(decode(&frame), Err(DecodeError::InvalidStructure)));
}

#[test]
fn decode_missing_brace_is_invalid() {
    let frame = cs("{\"SendState\":{\"time\":12.5,\"uid\":0,\"playing\":true}");
    assert!(matches!(decode(&frame), Err(DecodeError::InvalidStructure)));
}

#[test]
fn decode_uid_too_large_is_invalid() {
    let frame = cs("{\"SendState\":{\"time\":1,\"uid\":65536,\"playing\":true}}");
    assert!(matches!(decode(&frame), Err(DecodeError::InvalidStructure)));
}

#[test]
fn decode_uid_leading_zero_is_invalid() {
    let frame = cs("{\"SendState\":{\"time\":1,\"uid\":01,\"playing\":true}}");
    assert!(matches!(decode(&frame), Err(DecodeError::InvalidStructure)));
}

#[test]
fn decode_bare_fraction_dot_is_invalid() {
    let frame = cs("{\"SendState\":{\"time\":12.,\"uid\":0,\"playing\":true}}");
    assert!(matches!(decode(&frame), Err(DecodeError::InvalidStructure)));
}

#[test]
fn decode_trailing_junk_is_invalid() {
    let frame = cs("\"GetState\" x");
    assert!(matches!(decode(&frame), Err(DecodeError::InvalidStructure)));
}

#[test]
fn decode_integer_and_exponent_times() {
    let frame = cs("{\"SendState\":{\"time\":0,\"uid\":1,\"playing\":true}}");
    match decode(&frame) {
        Ok(IncomingRequest::SendState(d)) => assert_eq!(d.time, cs("0")),
        _ => panic!("expected SendState"),
    }
    let frame = cs("{\"SendState\":{\"time\":3E8,\"uid\":1,\"playing\":true}}");
    match decode(&frame) {
        Ok(IncomingRequest::SendState(d)) => assert_eq!(d.time, cs("3E8")),
        _ => panic!("expected SendState"),
    }
}

#[test]
fn encode_exact() {
    let cmd = ServerCommand { time: cs("12.5"), source_uid: 7, playing: true };
    assert_eq!(encode(&cmd), cs("{\"time\":12.5,\"source_uid\":7,\"playing\":true}"));
}

#[test]
fn encode_uid_bounds() {
    let cmd = ServerCommand { time: cs("0.0"), source_uid: 0, playing: false };
    assert_eq!(encode(&cmd), cs("{\"time\":0.0,\"source_uid\":0,\"playing\":false}"));
    let cmd = ServerCommand { time: cs("0.0"), source_uid: 65535, playing: false };
    assert_eq!(encode(&cmd), cs("{\"time\":0.0,\"source_uid\":65535,\"playing\":false}"));
}

#[test]
fn error_reply_exact() {
    assert_eq!(error_reply(), cs("{\"error\":\"invalid structure\"}"));
}

#[test]
fn decode_encode_round_trip_of_values() {
    let frame = cs("{\"SendState\":{\"time\":12.5,\"uid\":3,\"playing\":true}}");
    match decode(&frame) {
        Ok(IncomingRequest::SendState(d)) => {
            let cmd = ServerCommand { time: d.time, source_uid: d.uid, playing: d.playing };
            assert_eq!(encode(&cmd), cs("{\"time\":12.5,\"source_uid\":3,\"playing\":true}"));
        }
        _ => panic!("expected SendState"),
    }
}
