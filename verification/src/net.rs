//! Finding the peer, agreeing on keys with it, and talking to it.

pub mod discovery;
pub mod pairing;
pub mod proto;
