//! The daemon: sessions with the peer, and what they share besides input.

pub mod audio_status;
pub mod clipboard;
pub mod collect;
pub mod control;
pub mod echo;
pub mod files;
pub mod history;
pub mod identity;
pub mod latency;
pub mod layout;
pub mod lifecycle;
pub mod logs;
pub mod pairing;
pub mod peers;
pub mod session;
pub mod settings;
pub mod status;
pub mod trust;
