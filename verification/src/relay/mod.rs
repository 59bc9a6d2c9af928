//! The first form of the room server, which hands out plain numbered user
//! identifiers and relays packets without a handshake: its identifiers,
//! packets and errors.
pub mod error;

use vstd::prelude::*;

use crate::payload::{bytes_from_vec, bytes_view};

verus! {

/// Identifier of a user of the room.
#[derive(Clone, Copy, Debug, PartialEq, Eq, Structural, Hash)]
pub struct UserId(u64);

impl UserId {
    /// The number that identifies the user.
    pub closed spec fn value(self) -> u64 {
        self.0
    }

    /// The identifier with the given number.
    pub fn from_value(value: u64) -> (id: UserId)
        ensures
            id.value() == value,
    {
        UserId(value)
    }

    /// The identifier that follows this one.
    pub fn next(&self) -> (id: UserId)
        requires
            self.value() < u64::MAX,
        ensures
            id.value() == self.value() + 1,
    {
        UserId(self.0 + 1)
    }

    /// The number that identifies the user.
    pub fn into_inner(self) -> (n: u64)
        ensures
            n == self.value(),
    {
        self.0
    }
}

/// Two identifiers are the same exactly when their numbers are.
pub proof fn lemma_user_id_is_its_value(a: UserId, b: UserId)
    ensures
        a == b <==> a.value() == b.value(),
{
}

/// Encoded audio sent by one user.
#[derive(Clone, Debug)]
pub struct AudioPacket {
    pub user_id: UserId,
    pub data: bytes::Bytes,
}

impl AudioPacket {
    /// A packet from the given user that carries `data`.
    pub fn new(user_id: UserId, data: Vec<u8>) -> (packet: AudioPacket)
        ensures
            packet.user_id == user_id,
            bytes_view(packet.data) == data@,
    {
        AudioPacket { user_id, data: bytes_from_vec(data) }
    }
}

} // verus!
