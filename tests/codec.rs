use native_bridge::codec::{decode_handle, encode_handle};
use native_bridge::error::BridgeError;

#[test]
fn encode_small_ids() {
    assert_eq!(encode_handle(0), "0");
    assert_eq!(encode_handle(7), "7");
    assert_eq!(encode_handle(1234567890), "1234567890");
}

#[test]
fn round_trip_above_double_precision() {
    let big: u64 = (1u64 << 53) + 1;
    let text = encode_handle(big);
    assert_eq!(text, "9007199254740993");
    assert_eq!(decode_handle(&text), Ok(big));
}

#[test]
fn round_trip_extremes() {
    for id in [0u64, 1, 9, 10, 99, 100, u64::MAX - 1, u64::MAX] {
        assert_eq!(decode_handle(&encode_handle(id)), Ok(id));
    }
    assert_eq!(encode_handle(u64::MAX), "18446744073709551615");
}

#[test]
fn decode_accepts_plus_sign() {
    assert_eq!(decode_handle("+42"), Ok(42));
    assert_eq!(decode_handle("007"), Ok(7));
}

#[test]
fn decode_rejects_malformed_text() {
    for text in ["", "+", "-1", "abc", "12a", " 1", "1.0", "18446744073709551616"] {
        assert_eq!(decode_handle(text), Err(BridgeError::MalformedHandle));
    }
}
