//! The decisions of the client's audio service. The service waits for a
//! cancellation, a request of the application or a packet of the room, and
//! answers each with one action on its decoders, its mixing buffers, its
//! per-user output weights and its input and output streams. The actions
//! themselves (decoding, mixing, the audio devices) are carried out around
//! this state machine.
use std::collections::HashSet;
use vstd::prelude::*;
use vstd::std_specs::hash::group_hash_axioms;

use crate::client::error::ClientError;
use crate::model::RoomUserId;

verus! {

broadcast use group_hash_axioms;

/// What the audio service is woken by.
#[derive(Clone, Copy)]
pub enum AudioIoEvent {
    /// The service was cancelled.
    Cancelled,
    /// Every handle through which requests arrive is gone.
    RequestsClosed,
    /// The stream of packets from the room has ended.
    PacketsClosed,
    /// Set how loud a user of the room is played.
    SetOutputVolume { user_id: RoomUserId },
    /// Set how loud the microphone is sent.
    SetInputVolume,
    /// Make room for the audio of a user.
    CreateChannel { user_id: RoomUserId },
    /// Forget the audio of a user.
    RemoveChannel { user_id: RoomUserId },
    /// Use an input device, or none.
    SetInputDevice { device: bool },
    /// Use an output device, or none.
    SetOutputDevice { device: bool },
    /// A packet of a user arrived.
    Packet { user_id: RoomUserId },
    /// Making the decoder that `OpenChannel` asked for failed.
    DecoderCreationFailed,
    /// Decoding the packet that `Decode` asked for failed.
    DecodingFailed,
}

/// What went wrong when the audio service ends with an error.
#[derive(Clone, Copy, Debug, PartialEq, Eq, Structural)]
pub enum AudioIoFailure {
    /// A decoder for a new channel could not be made.
    DecoderCreation,
    /// A packet could not be decoded.
    Decoding,
}

/// The context of the error with which the service ends on a failure.
pub open spec fn failure_context(failure: AudioIoFailure) -> Seq<char> {
    match failure {
        AudioIoFailure::DecoderCreation => "fail to create opus decoder"@,
        AudioIoFailure::Decoding => "fail to decode audio packet"@,
    }
}

impl AudioIoFailure {
    /// The error with which the service ends: the failure's context, caused
    /// by the error of the codec (by its `Display` rendering).
    pub fn to_error(&self, cause: String) -> (e: ClientError)
        ensures
            e.spec_context() == failure_context(*self),
            e.spec_source() == Some(cause@),
    {
        match self {
            AudioIoFailure::DecoderCreation => ClientError::contextual("fail to create opus decoder")(
                cause,
            ),
            AudioIoFailure::Decoding => ClientError::contextual("fail to decode audio packet")(cause),
        }
    }
}

/// What the audio service does in answer.
#[derive(Clone, Copy, Debug, PartialEq, Eq, Structural)]
pub enum AudioIoAction {
    /// End the service, successfully.
    Stop,
    /// Store the user's output weight: its volume, or zero when muted.
    StoreOutputVolume { user_id: u64 },
    /// Store the new input volume.
    StoreInputVolume,
    /// Make a decoder for the user, then a silent mixing buffer and an
    /// output weight of one. If making the decoder fails, that is reported
    /// as `DecoderCreationFailed`, and the service ends with an error.
    OpenChannel { user_id: u64 },
    /// Drop the user's decoder, mixing buffer and output weight.
    CloseChannel { user_id: u64 },
    /// Drop the input stream, if any, and start none.
    StopInput,
    /// Drop the input stream, if any, and start one on the new device.
    RestartInput,
    /// Drop the output stream, if any.
    StopOutput,
    /// Start an output stream on the new device in place of the old one.
    RestartOutput,
    /// Decode the packet into the user's mixing buffer, after clearing it;
    /// the flags say whether a decoder (whose making must not fail) and a
    /// buffer are made for the user first. If decoding fails, that is
    /// reported as `DecodingFailed`, and the service ends with an error.
    Decode { user_id: u64, new_decoder: bool, new_buffer: bool },
    /// End the service with the error of the failure.
    StopWithError { failure: AudioIoFailure },
}

/// The state of the audio service, as its decisions see it.
pub struct AudioIoView {
    /// The users that have a decoder.
    pub decoders: Set<u64>,
    /// The users that have a mixing buffer.
    pub buffers: Set<u64>,
    /// The users that have an output weight.
    pub weights: Set<u64>,
    /// Whether an input stream runs.
    pub input_stream: bool,
    /// Whether an output stream runs.
    pub output_stream: bool,
    /// Whether the service has ended.
    pub stopped: bool,
}

/// The action that answers `e` in state `s`.
pub open spec fn action_for(s: AudioIoView, e: AudioIoEvent) -> AudioIoAction {
    match e {
        AudioIoEvent::Cancelled => AudioIoAction::Stop,
        AudioIoEvent::RequestsClosed => AudioIoAction::Stop,
        AudioIoEvent::PacketsClosed => AudioIoAction::Stop,
        AudioIoEvent::SetOutputVolume { user_id } => AudioIoAction::StoreOutputVolume {
            user_id: user_id.value(),
        },
        AudioIoEvent::SetInputVolume => AudioIoAction::StoreInputVolume,
        AudioIoEvent::CreateChannel { user_id } => AudioIoAction::OpenChannel {
            user_id: user_id.value(),
        },
        AudioIoEvent::RemoveChannel { user_id } => AudioIoAction::CloseChannel {
            user_id: user_id.value(),
        },
        AudioIoEvent::SetInputDevice { device } => if device {
            AudioIoAction::RestartInput
        } else {
            AudioIoAction::StopInput
        },
        AudioIoEvent::SetOutputDevice { device } => if device {
            AudioIoAction::RestartOutput
        } else {
            AudioIoAction::StopOutput
        },
        AudioIoEvent::Packet { user_id } => AudioIoAction::Decode {
            user_id: user_id.value(),
            new_decoder: !s.decoders.contains(user_id.value()),
            new_buffer: !s.buffers.contains(user_id.value()),
        },
        AudioIoEvent::DecoderCreationFailed => AudioIoAction::StopWithError {
            failure: AudioIoFailure::DecoderCreation,
        },
        AudioIoEvent::DecodingFailed => AudioIoAction::StopWithError {
            failure: AudioIoFailure::Decoding,
        },
    }
}

/// The state after answering `e` in state `s`.
pub open spec fn state_after(s: AudioIoView, e: AudioIoEvent) -> AudioIoView {
    match e {
        AudioIoEvent::Cancelled => AudioIoView { stopped: true, ..s },
        AudioIoEvent::RequestsClosed => AudioIoView { stopped: true, ..s },
        AudioIoEvent::PacketsClosed => AudioIoView { stopped: true, ..s },
        AudioIoEvent::DecoderCreationFailed => AudioIoView { stopped: true, ..s },
        AudioIoEvent::DecodingFailed => AudioIoView { stopped: true, ..s },
        AudioIoEvent::SetOutputVolume { user_id } => AudioIoView {
            weights: s.weights.insert(user_id.value()),
            ..s
        },
        AudioIoEvent::SetInputVolume => s,
        AudioIoEvent::CreateChannel { user_id } => AudioIoView {
            decoders: s.decoders.insert(user_id.value()),
            buffers: s.buffers.insert(user_id.value()),
            weights: s.weights.insert(user_id.value()),
            ..s
        },
        AudioIoEvent::RemoveChannel { user_id } => AudioIoView {
            decoders: s.decoders.remove(user_id.value()),
            buffers: s.buffers.remove(user_id.value()),
            weights: s.weights.remove(user_id.value()),
            ..s
        },
        AudioIoEvent::SetInputDevice { device } => AudioIoView { input_stream: device, ..s },
        AudioIoEvent::SetOutputDevice { device } => AudioIoView { output_stream: device, ..s },
        AudioIoEvent::Packet { user_id } => AudioIoView {
            decoders: s.decoders.insert(user_id.value()),
            buffers: s.buffers.insert(user_id.value()),
            ..s
        },
    }
}

/// The state of the client's audio service.
pub struct AudioIoState {
    decoders: HashSet<u64>,
    buffers: HashSet<u64>,
    weights: HashSet<u64>,
    input_stream: bool,
    output_stream: bool,
    stopped: bool,
}

impl View for AudioIoState {
    type V = AudioIoView;

    closed spec fn view(&self) -> AudioIoView {
        AudioIoView {
            decoders: self.decoders@,
            buffers: self.buffers@,
            weights: self.weights@,
            input_stream: self.input_stream,
            output_stream: self.output_stream,
            stopped: self.stopped,
        }
    }
}

impl AudioIoState {
    /// The service as it starts: no user, no stream.
    pub fn new() -> (state: AudioIoState)
        ensures
            state@.decoders == Set::<u64>::empty(),
            state@.buffers == Set::<u64>::empty(),
            state@.weights == Set::<u64>::empty(),
            !state@.input_stream,
            !state@.output_stream,
            !state@.stopped,
    {
        AudioIoState {
            decoders: HashSet::new(),
            buffers: HashSet::new(),
            weights: HashSet::new(),
            input_stream: false,
            output_stream: false,
            stopped: false,
        }
    }

    /// Whether the service has ended.
    pub fn is_stopped(&self) -> (stopped: bool)
        ensures
            stopped == self@.stopped,
    {
        self.stopped
    }

    /// Answers one event: the action to carry out, and the new state.
    pub fn step(&mut self, event: AudioIoEvent) -> (action: AudioIoAction)
        requires
            !old(self)@.stopped,
        ensures
            action == action_for(old(self)@, event),
            final(self)@ == state_after(old(self)@, event),
    {
        match event {
            AudioIoEvent::Cancelled | AudioIoEvent::RequestsClosed | AudioIoEvent::PacketsClosed => {
                self.stopped = true;
                AudioIoAction::Stop
            },
            AudioIoEvent::SetOutputVolume { user_id } => {
                let id = user_id.into_inner();
                self.weights.insert(id);
                AudioIoAction::StoreOutputVolume { user_id: id }
            },
            AudioIoEvent::SetInputVolume => AudioIoAction::StoreInputVolume,
            AudioIoEvent::CreateChannel { user_id } => {
                let id = user_id.into_inner();
                self.decoders.insert(id);
                self.buffers.insert(id);
                self.weights.insert(id);
                AudioIoAction::OpenChannel { user_id: id }
            },
            AudioIoEvent::RemoveChannel { user_id } => {
                let id = user_id.into_inner();
                self.decoders.remove(&id);
                self.buffers.remove(&id);
                self.weights.remove(&id);
                AudioIoAction::CloseChannel { user_id: id }
            },
            AudioIoEvent::SetInputDevice { device } => {
                self.input_stream = device;
                if device {
                    AudioIoAction::RestartInput
                } else {
                    AudioIoAction::StopInput
                }
            },
            AudioIoEvent::SetOutputDevice { device } => {
                self.output_stream = device;
                if device {
                    AudioIoAction::RestartOutput
                } else {
                    AudioIoAction::StopOutput
                }
            },
            AudioIoEvent::Packet { user_id } => {
                let id = user_id.into_inner();
                let new_decoder = self.decoders.insert(id);
                let new_buffer = self.buffers.insert(id);
                AudioIoAction::Decode { user_id: id, new_decoder, new_buffer }
            },
            AudioIoEvent::DecoderCreationFailed => {
                self.stopped = true;
                AudioIoAction::StopWithError { failure: AudioIoFailure::DecoderCreation }
            },
            AudioIoEvent::DecodingFailed => {
                self.stopped = true;
                AudioIoAction::StopWithError { failure: AudioIoFailure::Decoding }
            },
        }
    }
}

/// What each event asks of the service, whatever state it is in: the
/// action it gets and how the state changes. A device request starts a new
/// stream whenever it names a device, even if one runs already, and drops it
/// otherwise; a volume request for a user always stores that user's output
/// weight; the volume of the microphone is stored only on its own request.
pub proof fn lemma_step_answers(s: AudioIoView, e: AudioIoEvent)
    ensures
        ({
            let a = action_for(s, e);
            let t = state_after(s, e);
            match e {
                AudioIoEvent::Cancelled | AudioIoEvent::RequestsClosed | AudioIoEvent::PacketsClosed => a
                    == AudioIoAction::Stop && t.stopped,
                AudioIoEvent::DecoderCreationFailed => a == AudioIoAction::StopWithError {
                    failure: AudioIoFailure::DecoderCreation,
                } && t.stopped,
                AudioIoEvent::DecodingFailed => a == AudioIoAction::StopWithError {
                    failure: AudioIoFailure::Decoding,
                } && t.stopped,
                AudioIoEvent::SetOutputVolume { user_id } => a == AudioIoAction::StoreOutputVolume {
                    user_id: user_id.value(),
                } && t.weights.contains(user_id.value()) && t.decoders == s.decoders && t.buffers
                    == s.buffers && t.input_stream == s.input_stream && t.output_stream
                    == s.output_stream && t.stopped == s.stopped,
                AudioIoEvent::SetInputVolume => a == AudioIoAction::StoreInputVolume && t == s,
                AudioIoEvent::CreateChannel { user_id } => a == AudioIoAction::OpenChannel {
                    user_id: user_id.value(),
                } && t.decoders.contains(user_id.value()) && t.buffers.contains(user_id.value())
                    && t.weights.contains(user_id.value()),
                AudioIoEvent::RemoveChannel { user_id } => a == AudioIoAction::CloseChannel {
                    user_id: user_id.value(),
                } && !t.decoders.contains(user_id.value()) && !t.buffers.contains(user_id.value())
                    && !t.weights.contains(user_id.value()),
                AudioIoEvent::SetInputDevice { device } => (device ==> a == AudioIoAction::RestartInput)
                    && (!device ==> a == AudioIoAction::StopInput) && t.input_stream == device
                    && t.output_stream == s.output_stream && t.decoders == s.decoders && t.weights
                    == s.weights,
                AudioIoEvent::SetOutputDevice { device } => (device ==> a
                    == AudioIoAction::RestartOutput) && (!device ==> a == AudioIoAction::StopOutput)
                    && t.output_stream == device && t.input_stream == s.input_stream && t.decoders
                    == s.decoders && t.weights == s.weights,
                AudioIoEvent::Packet { user_id } => a == AudioIoAction::Decode {
                    user_id: user_id.value(),
                    new_decoder: !s.decoders.contains(user_id.value()),
                    new_buffer: !s.buffers.contains(user_id.value()),
                } && t.decoders.contains(user_id.value()) && t.buffers.contains(user_id.value())
                    && t.weights == s.weights,
            }
        }),
{
}

/// Requests about devices and volumes are answered the same way in every
/// state: the action depends on the request alone.
pub proof fn lemma_requests_ignore_state(s1: AudioIoView, s2: AudioIoView, e: AudioIoEvent)
    requires
        !(e is Packet),
    ensures
        action_for(s1, e) == action_for(s2, e),
{
}

/// The users with a decoder are always those with a mixing buffer: every
/// event gives or takes both together.
pub proof fn lemma_decoders_match_buffers(s: AudioIoView, e: AudioIoEvent)
    requires
        s.decoders == s.buffers,
    ensures
        state_after(s, e).decoders == state_after(s, e).buffers,
{
}

/// Closing a user's channel after opening it leaves no trace of the user,
/// whatever the state before.
pub proof fn lemma_open_then_close(s: AudioIoView, user_id: RoomUserId)
    ensures
        ({
            let opened = state_after(s, AudioIoEvent::CreateChannel { user_id });
            let closed = state_after(opened, AudioIoEvent::RemoveChannel { user_id });
            &&& closed.decoders == s.decoders.remove(user_id.value())
            &&& closed.buffers == s.buffers.remove(user_id.value())
            &&& closed.weights == s.weights.remove(user_id.value())
        }),
{
    let opened = state_after(s, AudioIoEvent::CreateChannel { user_id });
    let closed = state_after(opened, AudioIoEvent::RemoveChannel { user_id });
    assert(closed.decoders =~= s.decoders.remove(user_id.value()));
    assert(closed.buffers =~= s.buffers.remove(user_id.value()));
    assert(closed.weights =~= s.weights.remove(user_id.value()));
}

/// A packet never leaves its sender without a decoder and a mixing buffer,
/// and a decoder is made for it exactly when the sender had none.
pub proof fn lemma_packet_has_decoder(s: AudioIoView, user_id: RoomUserId)
    ensures
        state_after(s, AudioIoEvent::Packet { user_id }).decoders.contains(user_id.value()),
        state_after(s, AudioIoEvent::Packet { user_id }).buffers.contains(user_id.value()),
        action_for(s, AudioIoEvent::Packet { user_id }) matches AudioIoAction::Decode {
            new_decoder,
            ..
        } && new_decoder == !s.decoders.contains(user_id.value()),
{
}

} // verus!
