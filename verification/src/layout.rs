//! Where the monitors of all machines stand side by side.

use crate::device::DeviceId;
use vstd::prelude::*;

verus! {

#[derive(Debug, Clone, Copy, PartialEq, Eq, Hash, Structural)]
pub struct MonitorId {
    pub device: DeviceId,
    pub index: u32,
}

#[derive(Debug, Clone, Copy, PartialEq, Eq, Structural)]
pub struct Rect {
    pub x: i32,
    pub y: i32,
    pub w: i32,
    pub h: i32,
}

impl Rect {
    /// The right and the bottom edge are coordinates.
    pub open spec fn fits(self) -> bool {
        i32::MIN <= self.x + self.w <= i32::MAX && i32::MIN <= self.y + self.h <= i32::MAX
    }

    /// Whether a point is inside: the right and the bottom edge are not.
    pub fn contains(&self, px: i32, py: i32) -> (r: bool)
        requires
            self.fits(),
        ensures
            r == (self.x <= px < self.x + self.w && self.y <= py < self.y + self.h),
    {
        px >= self.x && px < self.x + self.w && py >= self.y && py < self.y + self.h
    }

    pub fn right(&self) -> (r: i32)
        requires
            self.fits(),
        ensures
            r == self.x + self.w,
    {
        self.x + self.w
    }

    pub fn bottom(&self) -> (r: i32)
        requires
            self.fits(),
        ensures
            r == self.y + self.h,
    {
        self.y + self.h
    }
}

/// A monitor as its machine reports it.
pub struct Monitor {
    pub id: MonitorId,
    pub name: String,
    pub native_size: (u32, u32),
    /// The bits of the scale, a single-precision number.
    pub dpi_scale_bits: u32,
    pub os_position: (i32, i32),
}

#[derive(Debug, Clone, Copy, PartialEq, Eq, Structural)]
pub struct PlacedMonitor {
    pub monitor: MonitorId,
    pub rect: Rect,
}

#[derive(Debug, Clone, Copy, PartialEq, Eq, Structural)]
pub enum Edge {
    Left,
    Right,
    Top,
    Bottom,
}

/// A cursor that crosses `from_edge` of one monitor comes to a monitor of
/// another machine.
#[derive(Debug, Clone, Copy, PartialEq, Eq, Structural)]
pub struct BridgeEdge {
    pub from: MonitorId,
    pub from_edge: Edge,
    pub to: MonitorId,
}

pub open spec fn opposite(e: Edge) -> Edge {
    match e {
        Edge::Left => Edge::Right,
        Edge::Right => Edge::Left,
        Edge::Top => Edge::Bottom,
        Edge::Bottom => Edge::Top,
    }
}

/// Whether two monitors have some height in common.
pub open spec fn overlap_y(a: Rect, b: Rect) -> bool {
    a.y < b.y + b.h && b.y < a.y + a.h
}

/// Whether two monitors have some width in common.
pub open spec fn overlap_x(a: Rect, b: Rect) -> bool {
    a.x < b.x + b.w && b.x < a.x + a.w
}

/// Whether `b` lies against the given edge of `a`.
pub open spec fn touches(a: Rect, e: Edge, b: Rect) -> bool {
    match e {
        Edge::Right => a.x + a.w == b.x && overlap_y(a, b),
        Edge::Left => a.x == b.x + b.w && overlap_y(a, b),
        Edge::Bottom => a.y + a.h == b.y && overlap_x(a, b),
        Edge::Top => a.y == b.y + b.h && overlap_x(a, b),
    }
}

/// The bridge over one edge, if there is one.
pub open spec fn bridge(a: PlacedMonitor, e: Edge, b: PlacedMonitor) -> Seq<BridgeEdge> {
    if a.monitor.device != b.monitor.device && touches(a.rect, e, b.rect) {
        seq![BridgeEdge { from: a.monitor, from_edge: e, to: b.monitor }]
    } else {
        Seq::empty()
    }
}

/// The bridges from one monitor to another.
pub open spec fn pair_bridges(a: PlacedMonitor, b: PlacedMonitor) -> Seq<BridgeEdge> {
    bridge(a, Edge::Right, b) + bridge(a, Edge::Left, b) + bridge(a, Edge::Bottom, b) + bridge(
        a,
        Edge::Top,
        b,
    )
}

/// The bridges from one monitor to the first `n` of a list.
pub open spec fn bridges_from(a: PlacedMonitor, ms: Seq<PlacedMonitor>, n: nat) -> Seq<BridgeEdge>
    decreases n,
{
    if n == 0 {
        Seq::empty()
    } else {
        bridges_from(a, ms, (n - 1) as nat) + pair_bridges(a, ms[n - 1])
    }
}

/// The bridges from the first `n` monitors of a list to all of them.
pub open spec fn bridges(ms: Seq<PlacedMonitor>, n: nat) -> Seq<BridgeEdge>
    decreases n,
{
    if n == 0 {
        Seq::empty()
    } else {
        bridges(ms, (n - 1) as nat) + bridges_from(ms[n - 1], ms, ms.len())
    }
}

fn rects_overlap_y(a: &Rect, b: &Rect) -> (r: bool)
    requires
        a.fits(),
        b.fits(),
    ensures
        r == overlap_y(*a, *b),
{
    a.y < b.bottom() && b.y < a.bottom()
}

fn rects_overlap_x(a: &Rect, b: &Rect) -> (r: bool)
    requires
        a.fits(),
        b.fits(),
    ensures
        r == overlap_x(*a, *b),
{
    a.x < b.right() && b.x < a.right()
}

/// The monitors of all machines in one plane.
pub struct UnifiedLayout {
    pub monitors: Vec<PlacedMonitor>,
}

impl Default for UnifiedLayout {
    fn default() -> (r: Self)
        ensures
            r.monitors@.len() == 0,
    {
        UnifiedLayout { monitors: Vec::new() }
    }
}

fn push_bridge(edges: &mut Vec<BridgeEdge>, touching: bool, a: &PlacedMonitor, e: Edge, b: &PlacedMonitor)
    requires
        a.monitor.device != b.monitor.device,
        touching == touches(a.rect, e, b.rect),
    ensures
        final(edges)@ == old(edges)@ + bridge(*a, e, *b),
{
    if touching {
        edges.push(BridgeEdge { from: a.monitor, from_edge: e, to: b.monitor });
    }
    assert(edges@ =~= old(edges)@ + bridge(*a, e, *b));
}

fn push_pair(edges: &mut Vec<BridgeEdge>, a: &PlacedMonitor, b: &PlacedMonitor)
    requires
        a.rect.fits(),
        b.rect.fits(),
    ensures
        final(edges)@ == old(edges)@ + pair_bridges(*a, *b),
{
    if a.monitor.device == b.monitor.device {
        assert(edges@ =~= old(edges)@ + pair_bridges(*a, *b));
        return ;
    }
    let on_right = a.rect.right() == b.rect.x && rects_overlap_y(&a.rect, &b.rect);
    push_bridge(edges, on_right, a, Edge::Right, b);
    let on_left = a.rect.x == b.rect.right() && rects_overlap_y(&a.rect, &b.rect);
    push_bridge(edges, on_left, a, Edge::Left, b);
    let below = a.rect.bottom() == b.rect.y && rects_overlap_x(&a.rect, &b.rect);
    push_bridge(edges, below, a, Edge::Bottom, b);
    let above = a.rect.y == b.rect.bottom() && rects_overlap_x(&a.rect, &b.rect);
    push_bridge(edges, above, a, Edge::Top, b);
    assert(edges@ =~= old(edges)@ + pair_bridges(*a, *b));
}

impl UnifiedLayout {
    /// All bridges: one for each pair of touching monitors of different
    /// machines and each direction of crossing.
    pub fn bridge_edges(&self) -> (edges: Vec<BridgeEdge>)
        requires
            forall|i: int|
                0 <= i < self.monitors@.len() ==> (#[trigger] self.monitors@[i]).rect.fits(),
        ensures
            edges@ == bridges(self.monitors@, self.monitors@.len()),
    {
        let mut edges: Vec<BridgeEdge> = Vec::new();
        let mut i: usize = 0;
        while i < self.monitors.len()
            invariant
                i <= self.monitors@.len(),
                forall|k: int|
                    0 <= k < self.monitors@.len() ==> (#[trigger] self.monitors@[k]).rect.fits(),
                edges@ == bridges(self.monitors@, i as nat),
            decreases self.monitors@.len() - i,
        {
            let a = &self.monitors[i];
            let mut j: usize = 0;
            while j < self.monitors.len()
                invariant
                    i < self.monitors@.len(),
                    j <= self.monitors@.len(),
                    *a == self.monitors@[i as int],
                    forall|k: int|
                        0 <= k < self.monitors@.len() ==> (
                        #[trigger] self.monitors@[k]).rect.fits(),
                    edges@ == bridges(self.monitors@, i as nat) + bridges_from(
                        *a,
                        self.monitors@,
                        j as nat,
                    ),
                decreases self.monitors@.len() - j,
            {
                let b = &self.monitors[j];
                push_pair(&mut edges, a, b);
                assert(edges@ =~= bridges(self.monitors@, i as nat) + bridges_from(
                    *a,
                    self.monitors@,
                    (j + 1) as nat,
                ));
                j = j + 1;
            }
            i = i + 1;
        }
        edges
    }
}

proof fn lemma_in_bridges_from(a: PlacedMonitor, ms: Seq<PlacedMonitor>, n: nat, e: BridgeEdge)
    requires
        n <= ms.len(),
    ensures
        bridges_from(a, ms, n).contains(e) <==> exists|j: int|
            0 <= j < n && #[trigger] pair_bridges(a, ms[j]).contains(e),
    decreases n,
{
    if n > 0 {
        lemma_in_bridges_from(a, ms, (n - 1) as nat, e);
        let p = bridges_from(a, ms, (n - 1) as nat);
        let q = pair_bridges(a, ms[n - 1]);
        lemma_contains_concat(p, q, e);
    }
}

proof fn lemma_contains_concat(p: Seq<BridgeEdge>, q: Seq<BridgeEdge>, e: BridgeEdge)
    ensures
        (p + q).contains(e) <==> p.contains(e) || q.contains(e),
{
    if p.contains(e) {
        let i = choose|i: int| 0 <= i < p.len() && p[i] == e;
        assert((p + q)[i] == e);
    }
    if q.contains(e) {
        let i = choose|i: int| 0 <= i < q.len() && q[i] == e;
        assert((p + q)[p.len() + i] == e);
    }
    if (p + q).contains(e) {
        let i = choose|i: int| 0 <= i < (p + q).len() && (p + q)[i] == e;
        if i < p.len() {
            assert(p[i] == e);
        } else {
            assert(q[i - p.len()] == e);
        }
    }
}

proof fn lemma_in_bridges(ms: Seq<PlacedMonitor>, n: nat, e: BridgeEdge)
    requires
        n <= ms.len(),
    ensures
        bridges(ms, n).contains(e) <==> exists|i: int, j: int|
            0 <= i < n && 0 <= j < ms.len() && #[trigger] pair_bridges(ms[i], ms[j]).contains(e),
    decreases n,
{
    if n > 0 {
        lemma_in_bridges(ms, (n - 1) as nat, e);
        lemma_in_bridges_from(ms[n - 1], ms, ms.len(), e);
        lemma_contains_concat(
            bridges(ms, (n - 1) as nat),
            bridges_from(ms[n - 1], ms, ms.len()),
            e,
        );
    }
}

proof fn lemma_in_pair(a: PlacedMonitor, b: PlacedMonitor, e: BridgeEdge)
    ensures
        pair_bridges(a, b).contains(e) <==> a.monitor.device != b.monitor.device && e.from
            == a.monitor && e.to == b.monitor && touches(a.rect, e.from_edge, b.rect),
{
    let (p, q, r, s) = (
        bridge(a, Edge::Right, b),
        bridge(a, Edge::Left, b),
        bridge(a, Edge::Bottom, b),
        bridge(a, Edge::Top, b),
    );
    lemma_contains_concat(p, q, e);
    lemma_contains_concat(p + q, r, e);
    lemma_contains_concat(p + q + r, s, e);
    lemma_in_bridge(a, Edge::Right, b, e);
    lemma_in_bridge(a, Edge::Left, b, e);
    lemma_in_bridge(a, Edge::Bottom, b, e);
    lemma_in_bridge(a, Edge::Top, b, e);
}

proof fn lemma_in_bridge(a: PlacedMonitor, edge: Edge, b: PlacedMonitor, e: BridgeEdge)
    ensures
        bridge(a, edge, b).contains(e) <==> a.monitor.device != b.monitor.device && e == (
        BridgeEdge { from: a.monitor, from_edge: edge, to: b.monitor }) && touches(
            a.rect,
            edge,
            b.rect,
        ),
{
    let s = bridge(a, edge, b);
    if s.len() > 0 {
        assert(s[0] == BridgeEdge { from: a.monitor, from_edge: edge, to: b.monitor });
    }
}

/// A bridge is listed exactly where two monitors of different machines touch.
pub proof fn bridges_join_touching_machines(ms: Seq<PlacedMonitor>, e: BridgeEdge)
    ensures
        bridges(ms, ms.len()).contains(e) <==> exists|i: int, j: int|
            0 <= i < ms.len() && 0 <= j < ms.len() && (#[trigger] ms[i]).monitor == e.from && (
            #[trigger] ms[j]).monitor == e.to && e.from.device != e.to.device && touches(
                ms[i].rect,
                e.from_edge,
                ms[j].rect,
            ),
{
    lemma_in_bridges(ms, ms.len(), e);
    if bridges(ms, ms.len()).contains(e) {
        let (i, j) = choose|i: int, j: int|
            0 <= i < ms.len() && 0 <= j < ms.len() && #[trigger] pair_bridges(
                ms[i],
                ms[j],
            ).contains(e);
        lemma_in_pair(ms[i], ms[j], e);
    }
    if exists|i: int, j: int|
        0 <= i < ms.len() && 0 <= j < ms.len() && (#[trigger] ms[i]).monitor == e.from && (
        #[trigger] ms[j]).monitor == e.to && e.from.device != e.to.device && touches(
            ms[i].rect,
            e.from_edge,
            ms[j].rect,
        ) {
        let (i, j) = choose|i: int, j: int|
            0 <= i < ms.len() && 0 <= j < ms.len() && (#[trigger] ms[i]).monitor == e.from && (
            #[trigger] ms[j]).monitor == e.to && e.from.device != e.to.device && touches(
                ms[i].rect,
                e.from_edge,
                ms[j].rect,
            );
        lemma_in_pair(ms[i], ms[j], e);
        assert(pair_bridges(ms[i], ms[j]).contains(e));
    }
}

/// Every bridge can be crossed back: the other monitor has one over its
/// opposite edge.
pub proof fn bridges_lead_both_ways(ms: Seq<PlacedMonitor>, e: BridgeEdge)
    requires
        bridges(ms, ms.len()).contains(e),
    ensures
        bridges(ms, ms.len()).contains(back(e)),
{
    bridges_join_touching_machines(ms, e);
    bridges_join_touching_machines(ms, back(e));
    let (i, j) = choose|i: int, j: int|
        0 <= i < ms.len() && 0 <= j < ms.len() && (#[trigger] ms[i]).monitor == e.from && (
        #[trigger] ms[j]).monitor == e.to && e.from.device != e.to.device && touches(
            ms[i].rect,
            e.from_edge,
            ms[j].rect,
        );
    assert(touches(ms[j].rect, back(e).from_edge, ms[i].rect));
    assert(ms[j].monitor == back(e).from && ms[i].monitor == back(e).to);
}

/// The bridge in the other direction.
pub open spec fn back(e: BridgeEdge) -> BridgeEdge {
    BridgeEdge { from: e.to, from_edge: opposite(e.from_edge), to: e.from }
}

/// How often a bridge is listed.
pub open spec fn listed(ms: Seq<PlacedMonitor>, e: BridgeEdge) -> nat {
    bridges(ms, ms.len()).to_multiset().count(e)
}

/// A number for each pair of monitors, added up over the first `n` partners of
/// one of them.
spec fn row(
    f: spec_fn(PlacedMonitor, PlacedMonitor) -> nat,
    a: PlacedMonitor,
    ms: Seq<PlacedMonitor>,
    n: nat,
) -> nat
    decreases n,
{
    if n == 0 {
        0
    } else {
        row(f, a, ms, (n - 1) as nat) + f(a, ms[n - 1])
    }
}

/// The same, added up over the first `n` monitors and their first `m` partners.
spec fn grid(
    f: spec_fn(PlacedMonitor, PlacedMonitor) -> nat,
    ms: Seq<PlacedMonitor>,
    n: nat,
    m: nat,
) -> nat
    decreases n,
{
    if n == 0 {
        0
    } else {
        grid(f, ms, (n - 1) as nat, m) + row(f, ms[n - 1], ms, m)
    }
}

spec fn flipped(f: spec_fn(PlacedMonitor, PlacedMonitor) -> nat) -> spec_fn(
    PlacedMonitor,
    PlacedMonitor,
) -> nat {
    |a: PlacedMonitor, b: PlacedMonitor| f(b, a)
}

proof fn lemma_column(
    f: spec_fn(PlacedMonitor, PlacedMonitor) -> nat,
    ms: Seq<PlacedMonitor>,
    n: nat,
    m: nat,
)
    ensures
        grid(f, ms, n, m + 1) == grid(f, ms, n, m) + row(flipped(f), ms[m as int], ms, n),
    decreases n,
{
    if n > 0 {
        lemma_column(f, ms, (n - 1) as nat, m);
    }
}

proof fn lemma_no_partners(
    f: spec_fn(PlacedMonitor, PlacedMonitor) -> nat,
    ms: Seq<PlacedMonitor>,
    n: nat,
)
    ensures
        grid(f, ms, n, 0) == 0,
    decreases n,
{
    if n > 0 {
        lemma_no_partners(f, ms, (n - 1) as nat);
    }
}

proof fn lemma_flipped(
    f: spec_fn(PlacedMonitor, PlacedMonitor) -> nat,
    ms: Seq<PlacedMonitor>,
    n: nat,
    m: nat,
)
    ensures
        grid(f, ms, n, m) == grid(flipped(f), ms, m, n),
    decreases m,
{
    if m == 0 {
        lemma_no_partners(f, ms, n);
    } else {
        lemma_column(f, ms, n, (m - 1) as nat);
        lemma_flipped(f, ms, n, (m - 1) as nat);
    }
}

proof fn lemma_even(
    f: spec_fn(PlacedMonitor, PlacedMonitor) -> nat,
    ms: Seq<PlacedMonitor>,
    n: nat,
)
    requires
        flipped(f) == f,
        forall|a: PlacedMonitor| #[trigger] f(a, a) == 0,
    ensures
        grid(f, ms, n, n) % 2 == 0,
    decreases n,
{
    if n > 0 {
        let k = (n - 1) as nat;
        lemma_even(f, ms, k);
        lemma_column(f, ms, k, k);
        assert(grid(f, ms, n, n) == grid(f, ms, k, n) + row(f, ms[k as int], ms, n));
        assert(row(f, ms[k as int], ms, n) == row(f, ms[k as int], ms, k) + f(
            ms[k as int],
            ms[k as int],
        ));
    }
}

spec fn pair_len() -> spec_fn(PlacedMonitor, PlacedMonitor) -> nat {
    |a: PlacedMonitor, b: PlacedMonitor| pair_bridges(a, b).len()
}

spec fn pair_count(e: BridgeEdge) -> spec_fn(PlacedMonitor, PlacedMonitor) -> nat {
    |a: PlacedMonitor, b: PlacedMonitor| pair_bridges(a, b).to_multiset().count(e)
}

proof fn lemma_row(a: PlacedMonitor, ms: Seq<PlacedMonitor>, n: nat, e: BridgeEdge)
    ensures
        bridges_from(a, ms, n).len() == row(pair_len(), a, ms, n),
        bridges_from(a, ms, n).to_multiset().count(e) == row(pair_count(e), a, ms, n),
    decreases n,
{
    broadcast use vstd::seq_lib::group_to_multiset_ensures;

    if n > 0 {
        lemma_row(a, ms, (n - 1) as nat, e);
        vstd::seq_lib::lemma_multiset_commutative(
            bridges_from(a, ms, (n - 1) as nat),
            pair_bridges(a, ms[n - 1]),
        );
    } else {
        assert(bridges_from(a, ms, 0).to_multiset().len() == 0);
    }
}

proof fn lemma_grid(ms: Seq<PlacedMonitor>, n: nat, e: BridgeEdge)
    ensures
        bridges(ms, n).len() == grid(pair_len(), ms, n, ms.len()),
        bridges(ms, n).to_multiset().count(e) == grid(pair_count(e), ms, n, ms.len()),
    decreases n,
{
    broadcast use vstd::seq_lib::group_to_multiset_ensures;

    if n > 0 {
        lemma_grid(ms, (n - 1) as nat, e);
        lemma_row(ms[n - 1], ms, ms.len(), e);
        vstd::seq_lib::lemma_multiset_commutative(
            bridges(ms, (n - 1) as nat),
            bridges_from(ms[n - 1], ms, ms.len()),
        );
    } else {
        assert(bridges(ms, 0).to_multiset().len() == 0);
    }
}

proof fn lemma_bridge_count(a: PlacedMonitor, edge: Edge, b: PlacedMonitor, e: BridgeEdge)
    ensures
        bridge(a, edge, b).to_multiset().count(e) == if bridge(a, edge, b).contains(e) {
            1nat
        } else {
            0
        },
{
    broadcast use vstd::seq_lib::group_to_multiset_ensures;

    let s = bridge(a, edge, b);
    if s.len() > 0 {
        assert(s =~= Seq::<BridgeEdge>::empty().push(s[0]));
        assert(s.contains(s[0]));
        assert(Seq::<BridgeEdge>::empty().to_multiset().len() == 0);
    }
}

proof fn lemma_pair_count(a: PlacedMonitor, b: PlacedMonitor, e: BridgeEdge)
    ensures
        pair_bridges(a, b).to_multiset().count(e) == if a.monitor.device != b.monitor.device
            && e.from == a.monitor && e.to == b.monitor && touches(a.rect, e.from_edge, b.rect) {
            1nat
        } else {
            0
        },
{
    let (p, q, r, s) = (
        bridge(a, Edge::Right, b),
        bridge(a, Edge::Left, b),
        bridge(a, Edge::Bottom, b),
        bridge(a, Edge::Top, b),
    );
    vstd::seq_lib::lemma_multiset_commutative(p, q);
    vstd::seq_lib::lemma_multiset_commutative(p + q, r);
    vstd::seq_lib::lemma_multiset_commutative(p + q + r, s);
    lemma_bridge_count(a, Edge::Right, b, e);
    lemma_bridge_count(a, Edge::Left, b, e);
    lemma_bridge_count(a, Edge::Bottom, b, e);
    lemma_bridge_count(a, Edge::Top, b, e);
    lemma_in_bridge(a, Edge::Right, b, e);
    lemma_in_bridge(a, Edge::Left, b, e);
    lemma_in_bridge(a, Edge::Bottom, b, e);
    lemma_in_bridge(a, Edge::Top, b, e);
}

/// Each adjacency is listed once for each direction of crossing: a bridge as
/// often as the one back, and so an even number in all. None leads to the
/// machine that it comes from.
pub proof fn crossings_and_returns_are_as_many(ms: Seq<PlacedMonitor>, e: BridgeEdge)
    ensures
        listed(ms, e) == listed(ms, back(e)),
        bridges(ms, ms.len()).len() % 2 == 0,
        e.from.device == e.to.device ==> listed(ms, e) == 0,
{
    broadcast use vstd::seq_lib::group_to_multiset_ensures;

    lemma_grid(ms, ms.len(), e);
    lemma_grid(ms, ms.len(), back(e));
    lemma_flipped(pair_count(e), ms, ms.len(), ms.len());
    assert(flipped(pair_count(e)) =~= pair_count(back(e))) by {
        assert forall|a: PlacedMonitor, b: PlacedMonitor|
            #![trigger pair_bridges(b, a)]
            flipped(pair_count(e))(a, b) == pair_count(back(e))(a, b) by {
            lemma_pair_count(b, a, e);
            lemma_pair_count(a, b, back(e));
        }
    }
    assert(flipped(pair_len()) =~= pair_len());
    lemma_even(pair_len(), ms, ms.len());
    bridges_join_touching_machines(ms, e);
}

/// Monitors of one machine alone have no bridges.
pub proof fn one_machine_has_no_bridges(ms: Seq<PlacedMonitor>, device: DeviceId)
    requires
        forall|i: int| 0 <= i < ms.len() ==> (#[trigger] ms[i]).monitor.device == device,
    ensures
        bridges(ms, ms.len()) == Seq::<BridgeEdge>::empty(),
{
    let all = bridges(ms, ms.len());
    if all.len() > 0 {
        let e = all[0];
        assert(all.contains(e));
        bridges_join_touching_machines(ms, e);
    }
    assert(all =~= Seq::<BridgeEdge>::empty());
}

/// Wherever a step of one pixel leads from a monitor of one machine to a monitor of
/// another, there is a bridge over that edge.
pub proof fn a_step_to_another_machine_has_a_bridge(
    l: &UnifiedLayout,
    edges: Vec<BridgeEdge>,
    i: int,
    j: int,
    x: i32,
    y: i32,
    edge: Edge,
    to: (i32, i32),
)
    requires
        call_ensures(UnifiedLayout::bridge_edges, (l,), edges),
        0 <= i < l.monitors@.len(),
        0 <= j < l.monitors@.len(),
        l.monitors@[i].monitor.device != l.monitors@[j].monitor.device,
        edge == Edge::Right ==> to.0 == x + 1 && to.1 == y,
        edge == Edge::Left ==> to.0 == x - 1 && to.1 == y,
        edge == Edge::Bottom ==> to.0 == x && to.1 == y + 1,
        edge == Edge::Top ==> to.0 == x && to.1 == y - 1,
        call_ensures(Rect::contains, (&l.monitors@[i].rect, x, y), true),
        call_ensures(Rect::contains, (&l.monitors@[i].rect, to.0, to.1), false),
        call_ensures(Rect::contains, (&l.monitors@[j].rect, to.0, to.1), true),
        call_ensures(Rect::contains, (&l.monitors@[j].rect, x, y), false),
    ensures
        edges@.contains(
            BridgeEdge {
                from: l.monitors@[i].monitor,
                from_edge: edge,
                to: l.monitors@[j].monitor,
            },
        ),
{
    let e = BridgeEdge {
        from: l.monitors@[i].monitor,
        from_edge: edge,
        to: l.monitors@[j].monitor,
    };
    assert(touches(l.monitors@[i].rect, edge, l.monitors@[j].rect));
    bridges_join_touching_machines(l.monitors@, e);
    assert(l.monitors@[i].monitor == e.from && l.monitors@[j].monitor == e.to);
}

/// A bridge to the right leads to another machine, over an edge that both monitors
/// share: there is a row in which the last pixel of the one lies beside the first
/// pixel of the other.
pub proof fn a_bridge_leads_over_a_shared_edge(
    l: &UnifiedLayout,
    edges: Vec<BridgeEdge>,
    e: BridgeEdge,
)
    requires
        call_ensures(UnifiedLayout::bridge_edges, (l,), edges),
        edges@.contains(e),
        e.from_edge == Edge::Right,
        forall|k: int|
            0 <= k < l.monitors@.len() ==> (#[trigger] l.monitors@[k]).rect.w > 0
                && l.monitors@[k].rect.h > 0,
    ensures
        e.from.device != e.to.device,
        exists|i: int, j: int, y: int|
            #![trigger l.monitors@[i], l.monitors@[j], shares_row(l.monitors@[i].rect, l.monitors@[j].rect, y)]
            {
                &&& 0 <= i < l.monitors@.len() && 0 <= j < l.monitors@.len()
                &&& l.monitors@[i].monitor == e.from && l.monitors@[j].monitor == e.to
                &&& l.monitors@[i].rect.x + l.monitors@[i].rect.w == l.monitors@[j].rect.x
                &&& shares_row(l.monitors@[i].rect, l.monitors@[j].rect, y)
            },
{
    let ms = l.monitors@;
    bridges_join_touching_machines(ms, e);
    let (i, j) = choose|i: int, j: int|
        0 <= i < ms.len() && 0 <= j < ms.len() && (#[trigger] ms[i]).monitor == e.from && (
        #[trigger] ms[j]).monitor == e.to && e.from.device != e.to.device && touches(
            ms[i].rect,
            e.from_edge,
            ms[j].rect,
        );
    let y = if ms[i].rect.y >= ms[j].rect.y {
        ms[i].rect.y as int
    } else {
        ms[j].rect.y as int
    };
    assert(shares_row(ms[i].rect, ms[j].rect, y));
}

/// Whether a row lies in two monitors.
pub open spec fn shares_row(a: Rect, b: Rect, y: int) -> bool {
    a.y <= y < a.y + a.h && b.y <= y < b.y + b.h
}

} // verus!
