use crabmic::client::audio_io::{AudioIoAction, AudioIoEvent, AudioIoFailure, AudioIoState};
use crabmic::client::devices::{device_not_found, find_device, match_device, DeviceMatch};
use crabmic::client::error::ClientError;
use crabmic::model::RoomUserId;

#[test]
fn local_error_renders_its_context() {
    assert_eq!(ClientError::local("no default input device").to_string(), "no default input device");
}

#[test]
fn contextual_error_renders_context_and_cause() {
    let e = ClientError::contextual("fail to connect")("timed out".to_string());
    assert_eq!(e.to_string(), "fail to connect: timed out");
}

fn names(list: &[Result<&str, &str>]) -> Vec<Result<String, String>> {
    list.iter()
        .map(|r| match r {
            Ok(n) => Ok(n.to_string()),
            Err(e) => Err(e.to_string()),
        })
        .collect()
}

#[test]
fn device_found_by_name() {
    let list = names(&[Ok("hdmi"), Ok("usb mic"), Ok("usb mic")]);
    assert_eq!(find_device(&list, "usb mic").unwrap(), 1);
    assert_eq!(find_device(&list, "hdmi").unwrap(), 0);
}

#[test]
fn no_device_has_the_name() {
    let list = names(&[Ok("hdmi")]);
    let e = find_device(&list, "usb").unwrap_err();
    assert_eq!(e.to_string(), "device not found: usb");
    let e = find_device(&Vec::new(), "usb").unwrap_err();
    assert_eq!(e.to_string(), "device not found: usb");
}

#[test]
fn unnamed_device_stops_the_search() {
    let list = names(&[Ok("hdmi"), Err("backend gone"), Ok("usb")]);
    let e = find_device(&list, "usb").unwrap_err();
    assert_eq!(e.to_string(), "fail to get device name: backend gone");
    assert_eq!(find_device(&list, "hdmi").unwrap(), 0);
}

#[test]
fn channels_open_and_close() {
    let mut state = AudioIoState::new();
    let user = RoomUserId::from(3u64);
    assert_eq!(state.step(AudioIoEvent::CreateChannel { user_id: user }), AudioIoAction::OpenChannel { user_id: 3 });
    assert_eq!(
        state.step(AudioIoEvent::Packet { user_id: user }),
        AudioIoAction::Decode { user_id: 3, new_decoder: false, new_buffer: false }
    );
    assert_eq!(state.step(AudioIoEvent::RemoveChannel { user_id: user }), AudioIoAction::CloseChannel { user_id: 3 });
    assert_eq!(
        state.step(AudioIoEvent::Packet { user_id: user }),
        AudioIoAction::Decode { user_id: 3, new_decoder: true, new_buffer: true }
    );
    assert_eq!(
        state.step(AudioIoEvent::Packet { user_id: user }),
        AudioIoAction::Decode { user_id: 3, new_decoder: false, new_buffer: false }
    );
}

#[test]
fn devices_start_and_stop_streams() {
    let mut state = AudioIoState::new();
    assert_eq!(state.step(AudioIoEvent::SetInputDevice { device: true }), AudioIoAction::RestartInput);
    assert_eq!(state.step(AudioIoEvent::SetInputDevice { device: false }), AudioIoAction::StopInput);
    assert_eq!(state.step(AudioIoEvent::SetOutputDevice { device: true }), AudioIoAction::RestartOutput);
    assert_eq!(state.step(AudioIoEvent::SetOutputDevice { device: false }), AudioIoAction::StopOutput);
    assert_eq!(state.step(AudioIoEvent::SetInputVolume), AudioIoAction::StoreInputVolume);
    assert_eq!(
        state.step(AudioIoEvent::SetOutputVolume { user_id: RoomUserId::from(8u64) }),
        AudioIoAction::StoreOutputVolume { user_id: 8 }
    );
    assert!(!state.is_stopped());
}

#[test]
fn cancellation_and_closed_inputs_stop_the_service() {
    for event in [AudioIoEvent::Cancelled, AudioIoEvent::RequestsClosed, AudioIoEvent::PacketsClosed] {
        let mut state = AudioIoState::new();
        assert_eq!(state.step(event), AudioIoAction::Stop);
        assert!(state.is_stopped());
    }
}

#[test]
fn one_device_at_a_time() {
    assert!(matches!(match_device(&Ok("usb".to_string()), "usb"), DeviceMatch::Found));
    assert!(matches!(match_device(&Ok("hdmi".to_string()), "usb"), DeviceMatch::Next));
    match match_device(&Err("gone".to_string()), "usb") {
        DeviceMatch::Failed(e) => assert_eq!(e.to_string(), "fail to get device name: gone"),
        _ => panic!("a device without a name stops the search"),
    }
    assert_eq!(device_not_found("usb").to_string(), "device not found: usb");
}

#[test]
fn codec_failures_end_the_service_with_an_error() {
    let mut state = AudioIoState::new();
    let user = RoomUserId::from(5u64);
    assert_eq!(state.step(AudioIoEvent::CreateChannel { user_id: user }), AudioIoAction::OpenChannel { user_id: 5 });
    let action = state.step(AudioIoEvent::DecoderCreationFailed);
    assert_eq!(action, AudioIoAction::StopWithError { failure: AudioIoFailure::DecoderCreation });
    assert!(state.is_stopped());
    assert_eq!(
        AudioIoFailure::DecoderCreation.to_error("bad arg".to_string()).to_string(),
        "fail to create opus decoder: bad arg"
    );

    let mut state = AudioIoState::new();
    let _ = state.step(AudioIoEvent::Packet { user_id: user });
    let action = state.step(AudioIoEvent::DecodingFailed);
    assert_eq!(action, AudioIoAction::StopWithError { failure: AudioIoFailure::Decoding });
    assert!(state.is_stopped());
    assert_eq!(
        AudioIoFailure::Decoding.to_error("corrupted stream".to_string()).to_string(),
        "fail to decode audio packet: corrupted stream"
    );
}
