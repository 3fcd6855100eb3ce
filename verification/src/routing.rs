//! Which monitor the cursor is on.

use crate::layout::MonitorId;
use vstd::prelude::*;

verus! {

#[derive(Debug, Clone, Copy, PartialEq, Eq, Structural)]
pub enum CursorState {
    OnLocal(MonitorId),
    OnRemote(MonitorId),
}

/// Where the cursor is, as far as it is known.
#[derive(Debug)]
pub struct RoutingFsm {
    state: Option<CursorState>,
}

impl View for RoutingFsm {
    type V = Option<CursorState>;

    closed spec fn view(&self) -> Option<CursorState> {
        self.state
    }
}

impl Default for RoutingFsm {
    fn default() -> (r: Self)
        ensures
            r@ is None,
    {
        RoutingFsm { state: None }
    }
}

impl RoutingFsm {
    pub fn new() -> (r: Self)
        ensures
            r@ is None,
    {
        RoutingFsm { state: None }
    }

    pub fn set(&mut self, s: CursorState)
        ensures
            final(self)@ == Some(s),
    {
        self.state = Some(s);
    }

    pub fn current(&self) -> (r: Option<CursorState>)
        ensures
            r == self@,
    {
        self.state
    }

    /// Whether the cursor is on a monitor of the peer.
    pub fn is_remote(&self) -> (r: bool)
        ensures
            r == (self@ matches Some(CursorState::OnRemote(_))),
    {
        match self.state {
            Some(CursorState::OnRemote(_)) => true,
            _ => false,
        }
    }
}

} // verus!
