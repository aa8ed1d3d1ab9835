//! Streaming transcription support for a dictation app: live text
//! accumulation, engine slot management, GPU provider settings and the
//! key-press rule that ends live typing.

pub mod text;
pub mod streaming;
pub mod gpu;
pub mod commands;
pub mod live_typing;
pub mod channel;
