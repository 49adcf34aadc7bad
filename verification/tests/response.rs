use ft260::frames::build_data_write_padded;
use ft260::response::decode;
use ft260::ProtocolError;

#[test]
fn decode_recovers_declared_payload() {
    let mut buffer = [0u8; 64];
    buffer[0] = 0xF1;
    buffer[1] = 4;
    buffer[2..6].copy_from_slice(&[0xDE, 0xAD, 0xBE, 0xEF]);
    buffer[6] = 0x77; // beyond the declared length, must be ignored
    assert_eq!(decode(&buffer), Ok(vec![0xDE, 0xAD, 0xBE, 0xEF]));
}

#[test]
fn decode_empty_payload() {
    let buffer = [0u8; 64];
    assert_eq!(decode(&buffer), Ok(vec![]));
}

#[test]
fn decode_length_at_capacity() {
    let mut buffer = [0x55u8; 64];
    buffer[1] = 62;
    assert_eq!(decode(&buffer), Ok(vec![0x55; 62]));
}

#[test]
fn decode_overlong_length_is_malformed() {
    let mut buffer = [0u8; 64];
    buffer[1] = 63;
    assert_eq!(decode(&buffer), Err(ProtocolError::MalformedFrame));
}

#[test]
fn data_write_round_trips_through_decode() {
    let payload = vec![0x10, 0x20, 0x30, 0x40, 0x50];
    let frame = build_data_write_padded(&payload).unwrap();
    assert_eq!(decode(&frame), Ok(payload));
}

#[test]
fn largest_payload_round_trips() {
    let payload: Vec<u8> = (0..59).collect();
    let frame = build_data_write_padded(&payload).unwrap();
    assert_eq!(decode(&frame), Ok(payload));
}
