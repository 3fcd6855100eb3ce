//! Where monitors stand, and which machine is the source of input.

use mineshare::device::DeviceId;
use mineshare::layout::{Edge, MonitorId, PlacedMonitor, Rect, UnifiedLayout};
use mineshare::routing::{CursorState, RoutingFsm};
use mineshare::source_fsm::{SourceAction, SourceFsm, SourceInput, SourceState};

fn mid(d: DeviceId, i: u32) -> MonitorId {
    MonitorId { device: d, index: i }
}

fn placed(d: DeviceId, i: u32, x: i32, y: i32, w: i32, h: i32) -> PlacedMonitor {
    PlacedMonitor { monitor: mid(d, i), rect: Rect { x, y, w, h } }
}

#[test]
fn detects_horizontal_bridge() {
    let a = DeviceId::new();
    let b = DeviceId::new();
    let layout = UnifiedLayout {
        monitors: vec![placed(a, 0, 0, 0, 1920, 1080), placed(b, 0, 1920, 0, 1920, 1080)],
    };
    let edges = layout.bridge_edges();
    assert_eq!(edges.len(), 2);
    assert!(edges.iter().any(|e| e.from_edge == Edge::Right));
}

#[test]
fn no_bridge_within_same_device() {
    let a = DeviceId::new();
    let layout = UnifiedLayout {
        monitors: vec![placed(a, 0, 0, 0, 1920, 1080), placed(a, 1, 1920, 0, 1920, 1080)],
    };
    assert!(layout.bridge_edges().is_empty());
}

#[test]
fn bridges_are_found_on_all_four_sides_and_both_ways() {
    let a = DeviceId(1);
    let b = DeviceId(2);
    let layout = UnifiedLayout {
        monitors: vec![
            placed(a, 0, 0, 0, 100, 100),
            placed(b, 0, 100, 0, 100, 100),
            placed(b, 1, 0, 100, 100, 100),
            placed(b, 2, 300, 300, 100, 100),
        ],
    };
    let edges = layout.bridge_edges();
    let from_a: Vec<(Edge, u32)> =
        edges.iter().filter(|e| e.from.device == a).map(|e| (e.from_edge, e.to.index)).collect();
    assert!(from_a.contains(&(Edge::Right, 0)));
    assert!(from_a.contains(&(Edge::Bottom, 1)));
    assert_eq!(from_a.len(), 2);
    let to_a: Vec<(Edge, u32)> =
        edges.iter().filter(|e| e.to.device == a).map(|e| (e.from_edge, e.from.index)).collect();
    assert!(to_a.contains(&(Edge::Left, 0)));
    assert!(to_a.contains(&(Edge::Top, 1)));
    assert_eq!(edges.len(), 4);
}

#[test]
fn there_are_as_many_bridges_back() {
    let a = DeviceId(1);
    let b = DeviceId(2);
    let layout = UnifiedLayout {
        monitors: vec![
            placed(a, 0, 0, 0, 100, 100),
            placed(b, 0, 100, 0, 100, 50),
            placed(b, 0, 100, 50, 100, 50),
        ],
    };
    let edges = layout.bridge_edges();
    let over = edges.iter().filter(|e| e.from == mid(a, 0) && e.from_edge == Edge::Right);
    let back = edges.iter().filter(|e| e.to == mid(a, 0) && e.from_edge == Edge::Left);
    assert_eq!((over.count(), back.count(), edges.len()), (2, 2, 4));
}

#[test]
fn monitors_that_meet_in_a_corner_are_not_joined() {
    let a = DeviceId(1);
    let b = DeviceId(2);
    let layout = UnifiedLayout {
        monitors: vec![placed(a, 0, 0, 0, 100, 100), placed(b, 0, 100, 100, 100, 100)],
    };
    assert!(layout.bridge_edges().is_empty());
}

#[test]
fn a_rectangle_ends_before_its_right_and_bottom_edge() {
    let r = Rect { x: 10, y: 20, w: 30, h: 40 };
    assert!(r.contains(10, 20));
    assert!(r.contains(39, 59));
    assert!(!r.contains(40, 20));
    assert!(!r.contains(10, 60));
    assert_eq!(r.right(), 40);
    assert_eq!(r.bottom(), 60);
}

#[test]
fn local_event_claims_source_from_idle() {
    let me = DeviceId::new();
    let mut fsm = SourceFsm::new(me);
    let now = 1_000;
    let action = fsm.step(SourceInput::LocalHwEvent, now, 100);
    assert_eq!(fsm.state(), SourceState::LocalSource);
    assert!(matches!(action, SourceAction::BroadcastClaim { ts_ns: 100 }));
}

#[test]
fn idle_accepts_peer_claim() {
    let me = DeviceId::new();
    let peer = DeviceId::new();
    let mut fsm = SourceFsm::new(me);
    let now = 1_000;
    fsm.step(SourceInput::PeerClaim { device: peer, ts_ns: 10 }, now, 0);
    assert_eq!(fsm.state(), SourceState::RemoteSource(peer));
}

#[test]
fn earlier_ts_wins_tiebreak() {
    let me = DeviceId::new();
    let peer = DeviceId::new();
    let mut fsm = SourceFsm::new(me);
    let now = 1_000;
    fsm.step(SourceInput::LocalHwEvent, now, 50);
    // the holder was not quiet for long, and the claim is later
    fsm.step(SourceInput::PeerClaim { device: peer, ts_ns: 60 }, now, 50);
    assert_eq!(fsm.state(), SourceState::LocalSource);
}

#[test]
fn an_earlier_claim_takes_the_role_from_a_quiet_holder() {
    let mut fsm = SourceFsm::new(DeviceId(5));
    fsm.step(SourceInput::LocalHwEvent, 1_000, 50);
    let late = 1_000 + 200_000_001;
    let action = fsm.step(SourceInput::PeerClaim { device: DeviceId(9), ts_ns: 40 }, late, 50);
    assert_eq!(action, SourceAction::BroadcastRelease);
    assert_eq!(fsm.state(), SourceState::RemoteSource(DeviceId(9)));
    let action = fsm.step(SourceInput::PeerDisconnect { device: DeviceId(9) }, late, 50);
    assert_eq!(action, SourceAction::Silent);
    assert_eq!(fsm.state(), SourceState::Idle);
}

#[test]
fn an_unused_role_is_given_up() {
    let mut fsm = SourceFsm::new(DeviceId(5));
    fsm.step(SourceInput::LocalHwEvent, 0, 50);
    assert_eq!(fsm.step(SourceInput::Tick, 2_000_000_000, 50), SourceAction::Silent);
    assert_eq!(fsm.step(SourceInput::Tick, 2_000_000_001, 50), SourceAction::BroadcastRelease);
    assert_eq!(fsm.state(), SourceState::Idle);
}

#[test]
fn routing_follows_the_cursor() {
    let mut fsm = RoutingFsm::new();
    assert_eq!(fsm.current(), None);
    assert!(!fsm.is_remote());
    let there = CursorState::OnRemote(mid(DeviceId(3), 0));
    fsm.set(there);
    assert_eq!(fsm.current(), Some(there));
    assert!(fsm.is_remote());
    fsm.set(CursorState::OnLocal(mid(DeviceId(1), 0)));
    assert!(!fsm.is_remote());
}

#[test]
fn identities_are_random_and_read_back() {
    let a = DeviceId::new();
    let b = DeviceId::new();
    assert_ne!(a, b);
    assert_eq!(DeviceId::parse(&a.to_text()), Some(a));
    assert_eq!(DeviceId::nil().to_text(), "00000000-0000-0000-0000-000000000000");
    assert_eq!(
        DeviceId(0x0123_4567_89ab_cdef_0123_4567_89ab_cdef).to_text(),
        "01234567-89ab-cdef-0123-456789abcdef"
    );
    assert_eq!(DeviceId::parse("no identity"), None);
    assert_eq!(
        DeviceId::parse("01234567-89AB-cdef-0123-456789abcdef"),
        Some(DeviceId(0x0123_4567_89ab_cdef_0123_4567_89ab_cdef))
    );
}
