//! On which side of this machine's screen the peer stands.

use crate::input::{self, set_peer_side, InputState, Platform};
use vstd::prelude::*;

verus! {

/// The side as it is written to the disk.
#[derive(Debug, Clone, Copy, PartialEq, Eq, Structural)]
pub enum PeerSide {
    Left,
    Right,
    Top,
    Bottom,
}

#[derive(Debug, Clone, Copy, PartialEq, Eq, Structural)]
pub struct LayoutConfig {
    pub peer_side: PeerSide,
}

/// Where nothing is set, a Linux machine stands to the right of the other, and
/// any other machine to the left.
pub open spec fn default_layout(platform: Platform) -> LayoutConfig {
    LayoutConfig {
        peer_side: match platform {
            Platform::Linux => PeerSide::Left,
            Platform::Windows | Platform::Other => PeerSide::Right,
        },
    }
}

impl LayoutConfig {
    pub fn default_for(platform: Platform) -> (r: Self)
        ensures
            r == default_layout(platform),
    {
        LayoutConfig {
            peer_side: match platform {
                Platform::Linux => PeerSide::Left,
                Platform::Windows | Platform::Other => PeerSide::Right,
            },
        }
    }
}

/// The layout, once it was read.
#[derive(Debug, Clone, Copy, PartialEq, Eq, Structural)]
pub struct Layout {
    pub current: Option<LayoutConfig>,
}

/// The same side for the input.
pub open spec fn side_for_input(side: PeerSide) -> input::PeerSide {
    match side {
        PeerSide::Left => input::PeerSide::Left,
        PeerSide::Right => input::PeerSide::Right,
        PeerSide::Top => input::PeerSide::Top,
        PeerSide::Bottom => input::PeerSide::Bottom,
    }
}

pub fn map_side(side: PeerSide) -> (r: input::PeerSide)
    ensures
        r == side_for_input(side),
{
    match side {
        PeerSide::Left => input::PeerSide::Left,
        PeerSide::Right => input::PeerSide::Right,
        PeerSide::Top => input::PeerSide::Top,
        PeerSide::Bottom => input::PeerSide::Bottom,
    }
}

impl Layout {
    pub fn new() -> (r: Self)
        ensures
            r.current is None,
    {
        Layout { current: None }
    }

    /// The layout. The first time `read` is asked for the one on the disk;
    /// where there is none, the default is kept.
    pub fn current<F: FnOnce() -> Option<LayoutConfig>>(&mut self, platform: Platform, read: F) -> (r:
        LayoutConfig)
        requires
            read.requires(()),
        ensures
            final(self).current == Some(r),
            match old(self).current {
                Some(c) => r == c,
                None => exists|found: Option<LayoutConfig>|
                    #![trigger read.ensures((), found)]
                    read.ensures((), found) && r == match found {
                        Some(c) => c,
                        None => default_layout(platform),
                    },
            },
    {
        match self.current {
            Some(c) => c,
            None => {
                let found = read();
                let c = match found {
                    Some(c) => c,
                    None => LayoutConfig::default_for(platform),
                };
                self.current = Some(c);
                c
            },
        }
    }

    /// Sets the layout, once it was written to the disk, for the input too.
    pub fn set(&mut self, st: &mut InputState, cfg: LayoutConfig)
        ensures
            final(self).current == Some(cfg),
            final(st).link.peer_side == side_for_input(cfg.peer_side),
            side_set(*old(st), *final(st), side_for_input(cfg.peer_side)),
    {
        set_peer_side(st, map_side(cfg.peer_side));
        self.current = Some(cfg);
    }
}

/// The side is set, and a change makes the Linux capture forget what it
/// collected at the old edge.
pub open spec fn side_set(before: InputState, after: InputState, side: input::PeerSide) -> bool {
    after == (InputState {
        link: input::Link { peer_side: side, ..before.link },
        linux: if side != before.link.peer_side && before.platform == Platform::Linux {
            input::linux::recentred(before.linux)
        } else {
            before.linux
        },
        ..before
    })
}

/// The side that the layout gives the peer is the side that the input uses.
pub proof fn the_layout_sets_the_side(l: &mut Layout, st: &mut InputState, cfg: LayoutConfig)
    requires
        call_ensures(Layout::set, (l, st, cfg), ()),
    ensures
        final(l).current == Some(cfg),
        cfg.peer_side == PeerSide::Left <==> final(st).link.peer_side == input::PeerSide::Left,
        cfg.peer_side == PeerSide::Right <==> final(st).link.peer_side == input::PeerSide::Right,
        cfg.peer_side == PeerSide::Top <==> final(st).link.peer_side == input::PeerSide::Top,
        cfg.peer_side == PeerSide::Bottom <==> final(st).link.peer_side == input::PeerSide::Bottom,
{
}

/// Where nothing is set, a Windows and a Linux machine stand side by side, each on
/// the side on which the other expects it.
pub proof fn default_sides_meet(r: (LayoutConfig, LayoutConfig))
    requires
        call_ensures(LayoutConfig::default_for, (Platform::Windows,), r.0),
        call_ensures(LayoutConfig::default_for, (Platform::Linux,), r.1),
    ensures
        r.0.peer_side == PeerSide::Right,
        r.1.peer_side == PeerSide::Left,
{
}

/// A peer that stays on its side changes nothing; one that is moved to another side
/// makes a Linux machine start anew in the middle of its screen, with nothing
/// pushed against the old edge. The cursor stays on its machine.
pub proof fn a_moved_peer_starts_anew(l: &mut Layout, st: &mut InputState, cfg: LayoutConfig)
    requires
        call_ensures(Layout::set, (l, st, cfg), ()),
    ensures
        final(st).link.peer_side == old(st).link.peer_side ==> *final(st) == *old(st),
        final(st).link.peer_side != old(st).link.peer_side && old(st).platform == Platform::Linux
            && old(st).linux.screen_w >= 0 && old(st).linux.screen_h >= 0 ==> {
            let lx = final(st).linux;
            &&& lx.left_pressure == 0
            &&& 2 * lx.cursor_x <= lx.screen_w <= 2 * lx.cursor_x + 1
            &&& 2 * lx.cursor_y <= lx.screen_h <= 2 * lx.cursor_y + 1
            &&& lx.screen_w == old(st).linux.screen_w && lx.screen_h == old(st).linux.screen_h
        },
        old(st).platform != Platform::Linux ==> final(st).linux == old(st).linux,
        final(st).linux.mode == old(st).linux.mode,
        final(st).win == old(st).win,
        final(st).keys == old(st).keys,
        final(st).link.input_locked == old(st).link.input_locked,
{
}

} // verus!
