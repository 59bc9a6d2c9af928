//! The client: its errors and the choice of an audio device by name.
pub mod audio_io;
pub mod devices;
pub mod error;
