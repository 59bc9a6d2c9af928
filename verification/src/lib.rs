//! A voice room over QUIC: the room's data model, its wire format, the
//! handshake and the bookkeeping of the server and the client.
pub mod channels;
pub mod client;
pub mod model;
pub mod payload;
pub mod relay;
pub mod server;
pub mod text;
pub mod wire;
