//! The server: its errors, the handshake it holds with each client and the
//! table of the users that are in the room.
pub mod error;
pub mod handshake;
pub mod room;
