use rollup_http_server::codec::{
    convert_address_to_string, convert_string_to_address, decode_fixed_width, decode_payload,
    encode_payload, has_hex_prefix_exec,
};

#[test]
fn encode_then_decode_returns_original_bytes() {
    let buffers: Vec<Vec<u8>> = vec![
        vec![],
        vec![0x00],
        vec![0xde, 0xad, 0xbe, 0xef],
        vec![0xff; 32],
        (0u8..=255u8).collect(),
    ];
    for bytes in buffers {
        let encoded = encode_payload(&bytes);
        let decoded = decode_payload(&encoded).expect("round trip must decode");
        assert_eq!(decoded, bytes);
    }
}

#[test]
fn encode_payload_matches_hex_crate() {
    let bytes = vec![0x01u8, 0x2a, 0xb0, 0xff];
    let encoded = encode_payload(&bytes);
    assert_eq!(encoded, format!("0x{}", hex::encode(&bytes)));
    assert_eq!(encoded, "0x012ab0ff");
}

#[test]
fn decode_payload_accepts_uppercase_digits() {
    let decoded = decode_payload("0xDEADBEEF").expect("uppercase hex is valid");
    assert_eq!(decoded, vec![0xde, 0xad, 0xbe, 0xef]);
}

#[test]
fn decode_payload_rejects_malformed_input() {
    assert!(decode_payload("").is_none());
    assert!(decode_payload("0").is_none());
    assert!(decode_payload("deadbeef").is_none());
    assert!(decode_payload("0xabc").is_none());
    assert!(decode_payload("0xzz").is_none());
    assert!(decode_payload("0x12 34").is_none());
}

#[test]
fn decode_payload_of_empty_payload_is_empty() {
    let decoded = decode_payload("0x").expect("an empty payload is legal");
    assert!(decoded.is_empty());
}

#[test]
fn decode_fixed_width_left_pads_to_width() {
    let word = decode_fixed_width("0xdeadbeef", 32).expect("fits in 32 bytes");
    assert_eq!(word.len(), 32);
    assert_eq!(&word[..28], &[0u8; 28]);
    assert_eq!(&word[28..], &[0xde, 0xad, 0xbe, 0xef]);
}

#[test]
fn decode_fixed_width_rejects_overflow_and_bad_hex() {
    assert!(decode_fixed_width("0xdeadbeef", 2).is_none());
    assert!(decode_fixed_width("0xabc", 32).is_none());
    assert!(decode_fixed_width("deadbeef", 32).is_none());
}

#[test]
fn convert_address_renders_lowercase_hex_without_marker() {
    let mut address = [0u8; 20];
    address[19] = 0x03;
    address[0] = 0xab;
    let rendered = convert_address_to_string(&address);
    assert_eq!(rendered, "ab00000000000000000000000000000000000003");
    assert_eq!(rendered, hex::encode(address));
}

#[test]
fn convert_string_to_address_parses_pairs_tolerantly() {
    let mut expected = vec![0u8; 20];
    expected[19] = 0x03;
    assert_eq!(
        convert_string_to_address("0x0000000000000000000000000000000000000003"),
        expected
    );
    assert_eq!(
        convert_string_to_address("0000000000000000000000000000000000000003"),
        expected
    );
    // a short string leaves the remaining bytes at zero
    let parsed = convert_string_to_address("0xabcd");
    assert_eq!(parsed.len(), 20);
    assert_eq!(&parsed[..2], &[0xab, 0xcd]);
    assert_eq!(&parsed[2..], &[0u8; 18]);
    // a malformed pair stands in as zero, digits past the width are ignored
    let parsed = convert_string_to_address("0xzz11");
    assert_eq!(&parsed[..2], &[0x00, 0x11]);
}

#[test]
fn decode_fixed_width_of_empty_payload_is_all_zeroes() {
    let word = decode_fixed_width("0x", 32).expect("an empty value is legal");
    assert_eq!(word, vec![0u8; 32]);
    let exact = decode_fixed_width(&format!("0x{}", "ab".repeat(32)), 32).expect("exact width");
    assert_eq!(exact, vec![0xab; 32]);
}

#[test]
fn hex_prefix_detection() {
    assert!(has_hex_prefix_exec("0x"));
    assert!(has_hex_prefix_exec("0xdead"));
    assert!(!has_hex_prefix_exec(""));
    assert!(!has_hex_prefix_exec("0"));
    assert!(!has_hex_prefix_exec("x0dead"));
    assert!(!has_hex_prefix_exec("dead"));
}
