use beacon_mpc::hex::decode_hex;
use beacon_mpc::hex::encode_hex;

#[test]
fn decode_simple_bytes() {
    assert_eq!(decode_hex("00ff10"), vec![0u8, 255u8, 16u8]);
}

#[test]
fn decode_empty_string() {
    assert_eq!(decode_hex(""), Vec::<u8>::new());
}

#[test]
fn decode_mixed_case() {
    assert_eq!(decode_hex("DeAdBeEf"), vec![0xde, 0xad, 0xbe, 0xef]);
}

#[test]
fn encode_is_lowercase() {
    assert_eq!(encode_hex(&[0xde, 0xad, 0xbe, 0xef]), "deadbeef");
}

#[test]
fn decode_then_encode_round_trips_case_insensitively() {
    // Upper-case digits come back in canonical lower case; lower-case input
    // comes back identical.
    let upper = "0123456789ABCDEFFEDCBA9876543210";
    assert_eq!(encode_hex(&decode_hex(upper)), upper.to_lowercase());
    let lower = "0123456789abcdeffedcba9876543210";
    assert_eq!(encode_hex(&decode_hex(lower)), lower);
}

#[test]
fn encode_then_decode_round_trips() {
    let bytes: Vec<u8> = (0u8..=255u8).collect();
    assert_eq!(decode_hex(&encode_hex(&bytes)), bytes);
}

#[test]
fn decode_all_zero_beacon() {
    let hex = "00".repeat(32);
    assert_eq!(hex.len(), 64);
    assert_eq!(decode_hex(&hex), vec![0u8; 32]);
}
