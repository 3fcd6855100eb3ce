//! What the user interface asks of the daemon.

use crate::device::DeviceId;
use crate::net::discovery::PeerAdvert;
use vstd::prelude::*;

verus! {

#[derive(Debug, Clone, Copy, PartialEq, Eq, Structural)]
pub enum IpcRequest {
    GetStatus,
    ListPeers,
    Pair { device_id: DeviceId },
}

pub enum IpcResponse {
    Status { device_id: DeviceId, display_name: String, os: String },
    Peers { peers: Vec<PeerAdvert> },
    Done,
    Error { message: String },
}

} // verus!
