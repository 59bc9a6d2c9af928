use crabmic::relay::error::{InternalError, InternalErrorKind, QuicError};
use crabmic::relay::{AudioPacket, UserId};

#[test]
fn relay_user_id_next() {
    let id = UserId::from_value(9);
    assert_eq!(id.next().into_inner(), 10);
    assert_eq!(id.next(), UserId::from_value(10));
}

#[test]
fn relay_packet_holds_its_data() {
    let packet = AudioPacket::new(UserId::from_value(2), vec![4, 5]);
    assert_eq!(packet.user_id, UserId::from_value(2));
    assert_eq!(&packet.data[..], &[4, 5]);
    assert_eq!(format!("{:?}", packet), "AudioPacket { user_id: UserId(2), data: b\"\\x04\\x05\" }");
}

#[test]
fn errors_keep_kind_and_context() {
    let e = InternalError::contextual("write user id")(InternalErrorKind::Quic(QuicError::ClosedStream));
    assert_eq!(
        format!("{:?}", e),
        "InternalError { kind: Quic(ClosedStream), context: \"write user id\" }"
    );
    let e = InternalError::new(InternalErrorKind::Io("eof".to_string()), "read data size");
    assert_eq!(
        format!("{:?}", e),
        "InternalError { kind: Io(\"eof\"), context: \"read data size\" }"
    );
}
