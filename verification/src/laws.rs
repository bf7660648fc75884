//! Guarantees that hold across the driver's operations, proved from the
//! operation contracts alone.

use vstd::prelude::*;

use crate::bits::bit;
use crate::bits::lemma_bits_extensional;
use crate::dispatch::dispatch_effect;
use crate::dispatch::woken_below;
use crate::mode::fields_of;
use crate::mode::Edge;
use crate::mode::Level;
use crate::mode::Mode;
use crate::mode::ModeFields;
use crate::state::abandon_effect;
use crate::state::disable_effect;
use crate::state::enable_effect;
use crate::state::event_effect;
use crate::state::Miwu;
use crate::wui::WuiMap;

verus! {

/// Enabling one line never clobbers another line's configuration: after
/// line `b` is enabled, every configuration bit of any other line `a` —
/// enable, mode, any-edge, polarity, detection enable and pending — reads
/// as it did before, whether or not the two lines share a register group.
pub proof fn lemma_enable_preserves_sibling_config(
    pre: Miwu,
    post: Miwu,
    a: WuiMap,
    b: WuiMap,
    f: ModeFields,
)
    requires
        a.wf(),
        b.wf(),
        a != b,
        enable_effect(pre, post, b, f),
    ensures
        bit(post.regs(a.flat_group()).wken, a.subgroup) == bit(
            pre.regs(a.flat_group()).wken,
            a.subgroup,
        ),
        bit(post.regs(a.flat_group()).wkmod, a.subgroup) == bit(
            pre.regs(a.flat_group()).wkmod,
            a.subgroup,
        ),
        bit(post.regs(a.flat_group()).wkaedg, a.subgroup) == bit(
            pre.regs(a.flat_group()).wkaedg,
            a.subgroup,
        ),
        bit(post.regs(a.flat_group()).wkedg, a.subgroup) == bit(
            pre.regs(a.flat_group()).wkedg,
            a.subgroup,
        ),
        bit(post.regs(a.flat_group()).wkinen, a.subgroup) == bit(
            pre.regs(a.flat_group()).wkinen,
            a.subgroup,
        ),
        bit(post.regs(a.flat_group()).wkpnd, a.subgroup) == bit(
            pre.regs(a.flat_group()).wkpnd,
            a.subgroup,
        ),
{
    if a.flat_group() == b.flat_group() {
        assert(a.miwu_n == b.miwu_n && a.group == b.group);
        assert(a.subgroup != b.subgroup);
    }
}

/// A line enabled on a level condition latches pending as soon as the
/// hardware drives its signal to that level, and its level register follows
/// the signal.
pub proof fn lemma_enable_then_matching_level_pends(
    pre: Miwu,
    mid: Miwu,
    post: Miwu,
    map: WuiMap,
    level: Level,
    high: bool,
)
    requires
        map.wf(),
        enable_effect(pre, mid, map, fields_of(Mode::Level(level))),
        event_effect(mid, post, map, high),
        high == (level is High),
    ensures
        bit(post.regs(map.flat_group()).wkpnd, map.subgroup),
        bit(post.regs(map.flat_group()).wkst, map.subgroup) == high,
{
}

/// A line enabled on an edge condition latches pending when the hardware
/// drives its signal through a matching transition away from the level it
/// held when it was enabled.
pub proof fn lemma_enable_then_matching_edge_pends(
    pre: Miwu,
    mid: Miwu,
    post: Miwu,
    map: WuiMap,
    edge: Edge,
    high: bool,
)
    requires
        map.wf(),
        enable_effect(pre, mid, map, fields_of(Mode::Edge(edge))),
        event_effect(mid, post, map, high),
        match edge {
            Edge::Any => bit(mid.regs(map.flat_group()).wkst, map.subgroup) != high,
            Edge::Falling => bit(mid.regs(map.flat_group()).wkst, map.subgroup) && !high,
            Edge::Rising => !bit(mid.regs(map.flat_group()).wkst, map.subgroup) && high,
        },
    ensures
        bit(post.regs(map.flat_group()).wkpnd, map.subgroup),
{
}

/// Disabling a line — and so releasing its handle, which disables it on the
/// way out — always leaves the line's enable bit clear, whatever state the
/// line was in before.
pub proof fn lemma_disable_clears_enable(pre: Miwu, post: Miwu, map: WuiMap)
    requires
        disable_effect(pre, post, map),
    ensures
        !bit(post.regs(map.flat_group()).wken, map.subgroup),
{
}

/// Abandoning a wait always leaves its line disabled and not pending,
/// whatever the line's state was — in particular, whether or not the
/// hardware event had already occurred.
pub proof fn lemma_abandon_quiesces(pre: Miwu, post: Miwu, map: WuiMap)
    requires
        abandon_effect(pre, post, map),
    ensures
        !bit(post.regs(map.flat_group()).wken, map.subgroup),
        !bit(post.regs(map.flat_group()).wkpnd, map.subgroup),
{
}

/// Disabling a line twice is the same as disabling it once: the second
/// disable moves nothing at all.
pub proof fn lemma_disable_idempotent(s0: Miwu, s1: Miwu, s2: Miwu, map: WuiMap)
    requires
        map.wf(),
        disable_effect(s0, s1, map),
        disable_effect(s1, s2, map),
    ensures
        forall|g: int| 0 <= g < 24 ==> s2.regs(g) == s1.regs(g),
        crate::state::wakers_preserved(s1, s2),
{
    let g = map.flat_group();
    lemma_bits_extensional(s2.regs(g).wken, s1.regs(g).wken);
}

/// Abandoning is idempotent in the same way: a second pass over the
/// abandoned line's teardown moves nothing at all.
pub proof fn lemma_abandon_idempotent(s0: Miwu, s1: Miwu, s2: Miwu, map: WuiMap)
    requires
        map.wf(),
        abandon_effect(s0, s1, map),
        abandon_effect(s1, s2, map),
    ensures
        forall|g: int| 0 <= g < 24 ==> s2.regs(g) == s1.regs(g),
        crate::state::wakers_preserved(s1, s2),
{
    let g = map.flat_group();
    lemma_bits_extensional(s2.regs(g).wken, s1.regs(g).wken);
    lemma_bits_extensional(s2.regs(g).wkpnd, s1.regs(g).wkpnd);
}

/// The dispatcher delivers a token if and only if some line of the group
/// has its snapshot bit set and that token registered: no slot outside the
/// snapshot is woken, and no set line with a registered waker is missed.
pub proof fn lemma_dispatch_wakes_exactly(m: Miwu, g: int, snap: u8, n: int, t: u64)
    requires
        0 <= n <= 8,
    ensures
        woken_below(m, g, snap, n).contains(t) <==> exists|j: int|
            0 <= j < n && bit(snap, j as u8) && (#[trigger] m.waker(g * 8 + j)) == Some(t),
    decreases n,
{
    if n > 0 {
        lemma_dispatch_wakes_exactly(m, g, snap, n - 1, t);
        let rest = woken_below(m, g, snap, n - 1);
        let cur = woken_below(m, g, snap, n);
        if bit(snap, (n - 1) as u8) && m.waker(g * 8 + (n - 1)) == Some(t) {
            assert(cur[cur.len() - 1] == t);
            assert(cur.contains(t));
        }
        if cur.contains(t) && !rest.contains(t) {
            let i = choose|i: int| 0 <= i < cur.len() && cur[i] == t;
            if i < rest.len() {
                assert(rest[i] == t);
            }
            assert(bit(snap, (n - 1) as u8) && m.waker(g * 8 + (n - 1)) == Some(t));
        }
        if rest.contains(t) {
            let i = choose|i: int| 0 <= i < rest.len() && rest[i] == t;
            assert(cur[i] == t);
            assert(cur.contains(t));
        }
    }
}

/// Abandoning a wait after the interrupt dispatcher already fired for its
/// line — which disabled the line and left it pending — still leaves the
/// line disabled and not pending: the unconditional clean-up double-clears
/// without harm.
pub proof fn lemma_abandon_after_dispatch_quiesces(
    pre: Miwu,
    mid: Miwu,
    post: Miwu,
    map: WuiMap,
    woken: Seq<u64>,
)
    requires
        map.wf(),
        dispatch_effect(pre, mid, map.miwu_n, map.group, woken),
        abandon_effect(mid, post, map),
    ensures
        !bit(post.regs(map.flat_group()).wken, map.subgroup),
        !bit(post.regs(map.flat_group()).wkpnd, map.subgroup),
{
}

} // verus!
