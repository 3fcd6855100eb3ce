//! The control channel.

use crate::device::DeviceId;
use vstd::prelude::*;

verus! {

pub const FRAME_VERSION: u8 = 1;

/// A message of the control channel.
pub enum ControlMsg {
    Hello { device: DeviceId, os: String, display_name: String },
    Heartbeat { ts_ns: u64 },
    Bye,
}

/// A frame on the wire, under the encryption of the transport.
pub struct Frame {
    pub bytes: Vec<u8>,
}

} // verus!
