use crabmic::channels::ChannelTable;
use crabmic::model::{greeting, ProtocolVersion, RoomAudioPacket, RoomUserId};
use crabmic::server::error::{InternalError, InternalErrorKind, QuicError};
use crabmic::server::handshake::check_client_greeting;
use crabmic::server::room::UserIdSequence;

fn split(bytes: &[u8]) -> ([u8; 7], [u8; 6]) {
    let mut hello = [0u8; 7];
    let mut version = [0u8; 6];
    hello.copy_from_slice(&bytes[..7]);
    version.copy_from_slice(&bytes[7..13]);
    (hello, version)
}

#[test]
fn own_greeting_is_accepted() {
    let (hello, version) = split(&greeting());
    let v = check_client_greeting(&hello, version).expect("accepted");
    assert_eq!((v.major(), v.minor(), v.patch()), (0, 1, 0));
}

#[test]
fn other_patch_is_accepted() {
    let (hello, _) = split(&greeting());
    let v = check_client_greeting(&hello, ProtocolVersion::new(0, 1, 9).to_bytes()).expect("accepted");
    assert_eq!(v.patch(), 9);
}

#[test]
fn wrong_hello_is_refused() {
    let (_, version) = split(&greeting());
    let e = check_client_greeting(b"crabmix", version).unwrap_err();
    assert_eq!(e.to_string(), "Protocol error: expect hello signal");
}

#[test]
fn wrong_hello_is_refused_before_version() {
    let e = check_client_greeting(b"xxxxxxx", [9, 9, 9, 9, 9, 9]).unwrap_err();
    assert_eq!(e.to_string(), "Protocol error: expect hello signal");
}

#[test]
fn incompatible_version_is_refused() {
    let (hello, _) = split(&greeting());
    let e = check_client_greeting(&hello, ProtocolVersion::new(0, 2, 0).to_bytes()).unwrap_err();
    assert_eq!(e.to_string(), "Protocol error: incompatible protocol version");
    let e = check_client_greeting(&hello, ProtocolVersion::new(1, 1, 0).to_bytes()).unwrap_err();
    assert_eq!(e.to_string(), "Protocol error: incompatible protocol version");
}

#[test]
fn error_kinds_render() {
    assert_eq!(InternalErrorKind::Protocol.to_string(), "Protocol error");
    assert_eq!(InternalErrorKind::Io("broken pipe".to_string()).to_string(), "Io error: broken pipe");
    assert_eq!(
        InternalErrorKind::Quic(QuicError::ClosedStream).to_string(),
        "Quic error: ClosedStream"
    );
    assert_eq!(
        InternalErrorKind::Quic(QuicError::WriteError("Stopped(0)".to_string())).to_string(),
        "Quic error: WriteError(Stopped(0))"
    );
}

#[test]
fn quic_errors_render_as_debug() {
    let cases = vec![
        (QuicError::WriteError("a".to_string()), "WriteError(a)"),
        (QuicError::ReadError("b".to_string()), "ReadError(b)"),
        (QuicError::ReadExactError("c".to_string()), "ReadExactError(c)"),
        (QuicError::ConnectionError("d".to_string()), "ConnectionError(d)"),
        (QuicError::ZeroRttRejected, "ZeroRttRejected"),
        (QuicError::ConnectionLost, "ConnectionLost"),
        (QuicError::ClosedStream, "ClosedStream"),
        (QuicError::Rustls("e".to_string()), "Rustls(e)"),
        (QuicError::NoInitialCipherSuite("f".to_string()), "NoInitialCipherSuite(f)"),
    ];
    for (e, shown) in cases {
        assert_eq!(e.debug_string(), shown);
        assert_eq!(format!("{:?}", e).replace('"', ""), shown);
    }
}

#[test]
fn internal_errors_render_with_context() {
    let e = InternalError::new(InternalErrorKind::Io("eof".to_string()), "read hello");
    assert_eq!(e.to_string(), "Io error: eof: read hello");
    let e = InternalError::protocol("expect hello signal");
    assert_eq!(e.to_string(), "Protocol error: expect hello signal");
    let e = InternalError::contextual("write user id")(InternalErrorKind::Quic(QuicError::ConnectionLost));
    assert_eq!(e.to_string(), "Quic error: ConnectionLost: write user id");
}

#[test]
fn first_user_ids_are_one_then_two() {
    let mut ids = UserIdSequence::new();
    assert_eq!(ids.last_user_id().into_inner(), 0);
    assert_eq!(ids.next_user_id().into_inner(), 1);
    assert_eq!(ids.next_user_id().into_inner(), 2);
    assert!(ids.last_user_id() == RoomUserId::from(2u64));
}

#[test]
fn packets_go_to_everyone_but_the_sender() {
    let mut table: ChannelTable<RoomAudioPacket> = ChannelTable::new();
    let _rx1 = table.create_channel(1);
    let _rx2 = table.create_channel(2);
    let _rx3 = table.create_channel(3);
    let mut to = table.recipients(2);
    to.sort();
    assert_eq!(to, vec![1, 3]);
    let mut from_stranger = table.recipients(9);
    from_stranger.sort();
    assert_eq!(from_stranger, vec![1, 2, 3]);
}

#[test]
fn leaving_forgets_the_channel() {
    let mut table: ChannelTable<RoomAudioPacket> = ChannelTable::new();
    let _rx1 = table.create_channel(1);
    let _rx2 = table.create_channel(2);
    table.remove_channel(1);
    assert!(table.sender(1).is_none());
    assert!(table.sender(2).is_some());
    assert_eq!(table.recipients(2), Vec::<u64>::new());
    table.remove_channel(5);
    assert_eq!(table.recipients(9), vec![2]);
}

#[test]
fn joining_then_leaving_restores_the_room() {
    let mut table: ChannelTable<RoomAudioPacket> = ChannelTable::new();
    let _rx1 = table.create_channel(1);
    let _rx2 = table.create_channel(2);
    table.remove_channel(2);
    assert_eq!(table.recipients(9), vec![1]);
    assert!(table.sender(2).is_none());
}

#[test]
fn dropped_receivers_are_cleared() {
    let mut table: ChannelTable<RoomAudioPacket> = ChannelTable::new();
    let rx1 = table.create_channel(1);
    let _rx2 = table.create_channel(2);
    drop(rx1);
    table.clear_dropped_channels();
    assert_eq!(table.recipients(9), vec![2]);
    assert!(table.sender(1).is_none());
}

#[test]
fn the_new_channel_carries_packets() {
    let mut table: ChannelTable<RoomAudioPacket> = ChannelTable::new();
    let mut rx = table.create_channel(4);
    let sender = table.sender(4).expect("member");
    sender.tx.try_send(RoomAudioPacket::new(1, vec![5])).expect("room in channel");
    let got = rx.rx.try_recv().expect("packet");
    assert_eq!(got.user_id.into_inner(), 1);
    assert_eq!(sender.tx.max_capacity(), 64);
}

#[test]
fn users_answered_closed_are_dropped() {
    let mut table: ChannelTable<RoomAudioPacket> = ChannelTable::new();
    let _rx1 = table.create_channel(1);
    let _rx2 = table.create_channel(2);
    let _rx3 = table.create_channel(3);
    table.drop_closed(&vec![(1, true), (2, false), (3, true), (7, true)]);
    assert_eq!(table.recipients(9), vec![2]);
    assert!(table.sender(1).is_none());
    assert!(table.sender(3).is_none());
}

#[test]
fn open_channels_are_kept() {
    let mut table: ChannelTable<RoomAudioPacket> = ChannelTable::new();
    let _rx1 = table.create_channel(1);
    let _rx2 = table.create_channel(2);
    table.clear_dropped_channels();
    let mut left = table.recipients(9);
    left.sort();
    assert_eq!(left, vec![1, 2]);
}
