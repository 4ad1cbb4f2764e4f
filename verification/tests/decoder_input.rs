use v2x::decoder_input::{decoder_may_overrun_on, INPUT_ENDS_AFTER_KEY};
use v2x::decoding::decode_v2x;
use v2x::error::V2xError;
use v2x::tracked_objects::TrackedObjects;
use v2x::tracking::ingest_packet;

fn refused() -> Result<v2x::decoded::V2xMessage, V2xError> {
    Err(V2xError::Decode(INPUT_ENDS_AFTER_KEY.to_string()))
}

#[test]
fn json_that_ends_after_a_key_is_kept_from_the_decoder() {
    let cases: [&[u8]; 5] = [
        b"{\"header\":{\"messageID\":",
        b"  {\"messageId\":",
        "\u{3000}{\"messageID\":".as_bytes(),
        b"{\"header\":{\"protocolVersion\":",
        b"{\"header\":{\"messageID\":2,\"protocolVersion\":",
    ];
    for bytes in cases {
        assert!(decoder_may_overrun_on(bytes));
        assert_eq!(decode_v2x(bytes), refused());
    }
}

#[test]
fn other_bytes_go_to_the_decoder() {
    assert!(!decoder_may_overrun_on(b"\"messageID\":"));
    assert!(!decoder_may_overrun_on(b"{\"messageID\": 2"));
    assert!(!decoder_may_overrun_on(b""));
    assert!(!decoder_may_overrun_on(b"{\"protocolVersion\":1}"));
    // Only the first occurrence of a key is read on from.
    assert!(!decoder_may_overrun_on(b"{\"messageID\":1,\"messageID\":"));
    assert!(!decoder_may_overrun_on(b"{\"messageID\":1,\"messageId\":"));
    // Bytes that do not start like JSON take another path in the decoder.
    assert!(!decoder_may_overrun_on(b"\x02\x02{\"messageID\":"));
    assert!(decode_v2x(b"{\"messageID\":1,\"messageID\":").is_err());
    assert!(decode_v2x(b"\x02\x02{\"messageID\":").is_err());
    match decode_v2x(b"{\"messageID\": 2") {
        Err(V2xError::Decode(detail)) => assert_ne!(detail, INPUT_ENDS_AFTER_KEY),
        other => panic!("expected a decoding error, got {other:?}"),
    }
}

#[test]
fn a_refused_packet_is_not_tracked() {
    let mut objects = TrackedObjects::new();
    let r = ingest_packet(&mut objects, b"{\"header\":{\"protocolVersion\":");
    assert_eq!(r, Err(V2xError::Decode(INPUT_ENDS_AFTER_KEY.to_string())));
    assert!(objects.values().is_empty());
}
