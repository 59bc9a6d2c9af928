use crabmic::wire::{
    decode_downlink_header, decode_u32, decode_u64, decode_uplink_header, encode_downlink_frame,
    encode_u32, encode_u64, encode_uplink_frame,
};

#[test]
fn u32_is_big_endian() {
    assert_eq!(encode_u32(0x0102_0304), [1, 2, 3, 4]);
    assert_eq!(decode_u32([1, 2, 3, 4]), 0x0102_0304);
    assert_eq!(decode_u32(encode_u32(u32::MAX)), u32::MAX);
}

#[test]
fn u64_is_big_endian() {
    assert_eq!(encode_u64(0x0102_0304_0506_0708), [1, 2, 3, 4, 5, 6, 7, 8]);
    assert_eq!(decode_u64([1, 2, 3, 4, 5, 6, 7, 8]), 0x0102_0304_0506_0708);
    assert_eq!(decode_u64(encode_u64(12345)), 12345);
}

#[test]
fn uplink_frame_is_length_then_audio() {
    let audio = bytes::Bytes::from(vec![9u8, 8, 7]);
    assert_eq!(encode_uplink_frame(&audio), vec![0, 0, 0, 3, 9, 8, 7]);
    let empty = bytes::Bytes::new();
    assert_eq!(encode_uplink_frame(&empty), vec![0, 0, 0, 0]);
}

#[test]
fn downlink_frame_is_sender_length_then_data() {
    let data = bytes::Bytes::from(vec![0xaau8, 0xbb]);
    assert_eq!(
        encode_downlink_frame(0x0102, &data),
        vec![0, 0, 0, 0, 0, 0, 1, 2, 0, 0, 0, 2, 0xaa, 0xbb]
    );
}

#[test]
fn headers_read_back() {
    let data = bytes::Bytes::from(vec![1u8; 300]);
    let frame = encode_downlink_frame(77, &data);
    let mut header = [0u8; 12];
    header.copy_from_slice(&frame[..12]);
    assert_eq!(decode_downlink_header(header), (77, 300));
    assert_eq!(&frame[12..], &data[..]);

    let up = encode_uplink_frame(&data);
    let mut header = [0u8; 4];
    header.copy_from_slice(&up[..4]);
    assert_eq!(decode_uplink_header(header), 300);
    assert_eq!(&up[4..], &data[..]);
}
