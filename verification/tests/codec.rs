use er302::codec::{checksum, decode, encode};

fn xor_of(bytes: &[u8]) -> u8 {
    bytes.iter().fold(0, |acc, b| acc ^ b)
}

#[test]
fn encode_known_frame() {
    // Encoding 00 00 01 02 52 gives AA BB 06 00 00 00 01 02 52 <xor>,
    // where <xor> folds 06 00 00 00 01 02 52.
    let payload = vec![0x00u8, 0x00, 0x01, 0x02, 0x52];
    let frame = encode(&payload);
    let xor = xor_of(&[0x06, 0x00, 0x00, 0x00, 0x01, 0x02, 0x52]);
    assert_eq!(frame, vec![0xaa, 0xbb, 0x06, 0x00, 0x00, 0x00, 0x01, 0x02, 0x52, xor]);
    assert_eq!(xor, 0x57);
}

#[test]
fn length_field_is_payload_len_plus_one() {
    let payload = vec![0x11u8, 0x22, 0x33, 0x44, 0x55];
    let frame = encode(&payload);
    assert_eq!(frame[2], 6);
    assert_eq!(frame[3], 0);

    let long = vec![0xabu8; 300];
    let frame = encode(&long);
    let len = (frame[2] as usize) + 256 * (frame[3] as usize);
    assert_eq!(len, 301);
}

#[test]
fn checksum_is_xor_fold() {
    let data = vec![0x06u8, 0x00, 0x52];
    assert_eq!(checksum(&data), 0x06 ^ 0x00 ^ 0x52);
    let data = vec![0x05u8, 0x00, 0x01, 0x02, 0x03];
    assert_eq!(checksum(&data), xor_of(&data));
}

#[test]
fn round_trip_multi_byte() {
    let payload = vec![0x00u8, 0x00, 0x07, 0x02, 0x60, 0x35, 0x17, 0x05];
    let frame = encode(&payload);
    assert_eq!(decode(&frame), Some(payload));
}

#[test]
fn round_trip_single_byte() {
    let payload = vec![0x52u8];
    let frame = encode(&payload);
    assert_eq!(decode(&frame), Some(payload));
}

#[test]
fn decode_rejects_corrupt_checksum() {
    let payload = vec![0x00u8, 0x00, 0x01, 0x02, 0x52];
    let mut frame = encode(&payload);
    let last = frame.len() - 1;
    frame[last] ^= 0xff;
    assert_eq!(decode(&frame), None);
}

#[test]
fn decode_rejects_bad_header_and_length() {
    let payload = vec![0x01u8, 0x02];
    let mut frame = encode(&payload);
    frame[0] = 0xab;
    assert_eq!(decode(&frame), None);

    let mut frame = encode(&payload);
    frame[2] = frame[2].wrapping_add(1);
    assert_eq!(decode(&frame), None);

    assert_eq!(decode(&vec![0xaau8, 0xbb, 0x01]), None);
}
