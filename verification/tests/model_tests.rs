use crabmic::model::{
    crabmic_alpn, greeting, hello_signal, protocol_version, ProtocolVersion, RoomAudioPacket,
    RoomUserId, HELLO_SIGNAL_SIZE, PROTOCOL_VERSION_SIZE,
};

#[test]
fn version_to_bytes_is_big_endian() {
    let v = ProtocolVersion::new(0x0102, 0x0304, 0x0506);
    assert_eq!(v.to_bytes(), [1, 2, 3, 4, 5, 6]);
    assert_eq!(ProtocolVersion::new(0, 1, 0).to_bytes(), [0, 0, 0, 1, 0, 0]);
}

#[test]
fn version_from_bytes_reads_each_field() {
    let w = ProtocolVersion::from_bytes([1, 2, 3, 4, 0xff, 0xfe]);
    assert_eq!(w.major(), 0x0102);
    assert_eq!(w.minor(), 0x0304);
    assert_eq!(w.patch(), 0xfffe);
}

#[test]
fn version_bytes_roundtrip() {
    let v = ProtocolVersion::new(65535, 7, 300);
    let back = ProtocolVersion::from_bytes(v.to_bytes());
    assert_eq!((back.major(), back.minor(), back.patch()), (65535, 7, 300));
    let bytes = [9, 8, 7, 6, 5, 4];
    assert_eq!(ProtocolVersion::from_bytes(bytes).to_bytes(), bytes);
}

#[test]
fn compatibility_ignores_patch_only() {
    let a = ProtocolVersion::new(1, 2, 3);
    assert!(a.compatible(&a));
    assert!(a.compatible(&ProtocolVersion::new(1, 2, 99)));
    assert!(ProtocolVersion::new(1, 2, 99).compatible(&a));
    assert!(!a.compatible(&ProtocolVersion::new(1, 3, 3)));
    assert!(!a.compatible(&ProtocolVersion::new(2, 2, 3)));
}

#[test]
fn version_renders_as_dotted_decimal() {
    assert_eq!(protocol_version().to_string(), "0.1.0");
    assert_eq!(ProtocolVersion::new(10, 0, 65535).to_string(), "10.0.65535");
}

#[test]
fn own_protocol_version_is_0_1_0() {
    let v = protocol_version();
    assert_eq!((v.major(), v.minor(), v.patch()), (0, 1, 0));
}

#[test]
fn user_id_renders_as_eight_hex_digits() {
    assert_eq!(RoomUserId::from(255u64).to_string(), "000000ff");
    assert_eq!(RoomUserId::from(0u64).to_string(), "00000000");
    assert_eq!(RoomUserId::from(0x1234_5678_9abc_def0u64).to_string(), "123456789abcdef0");
    assert_eq!(RoomUserId::from(0xdead_beefu64).to_string(), "deadbeef");
}

#[test]
fn user_id_debug_rendering() {
    assert_eq!(RoomUserId::from(26u64).debug_string(), "RoomUserId(0000001a)");
}

#[test]
fn user_id_next_and_conversions() {
    let id = RoomUserId::from(41u64);
    assert_eq!(id.next().into_inner(), 42);
    assert_eq!(u64::from(id), 41);
    assert_eq!(RoomUserId::default().into_inner(), 0);
    assert!(RoomUserId::from(7u64) == RoomUserId::from(7u64));
    assert!(RoomUserId::from(7u64) != RoomUserId::from(8u64));
}

#[test]
fn hello_signal_and_alpn_are_crabmic() {
    assert_eq!(&hello_signal(), b"crabmic");
    assert_eq!(HELLO_SIGNAL_SIZE, 7);
    assert_eq!(crabmic_alpn(), b"crabmic".to_vec());
}

#[test]
fn greeting_is_hello_then_version() {
    let mut expected = b"crabmic".to_vec();
    expected.extend_from_slice(&[0, 0, 0, 1, 0, 0]);
    assert_eq!(greeting(), expected);
    assert_eq!(greeting().len(), HELLO_SIGNAL_SIZE + PROTOCOL_VERSION_SIZE);
}

#[test]
fn packet_holds_its_data() {
    let packet = RoomAudioPacket::new(5, vec![1, 2, 3]);
    assert_eq!(packet.user_id.into_inner(), 5);
    assert_eq!(&packet.data[..], &[1, 2, 3]);
    let copy = packet.clone();
    assert_eq!(&copy.data[..], &[1, 2, 3]);
}
