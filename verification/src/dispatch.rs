//! The interrupt dispatcher: one entry per (controller, group) pair.
//!
//! On invocation the dispatcher reads the group's pending bitmask once — a
//! snapshot; later hardware events are not part of this pass — then walks
//! the set bits in ascending position, waking the registered waker of each
//! corresponding line (a slot with no occupant is a harmless no-op), and
//! finally clears the enable bits of exactly the snapshot's lines in one
//! modify, leaving every other line of the group armed as it was. The
//! pending bits are deliberately not cleared: the consumer clears its own
//! line after observing the event, so no event can vanish before it was
//! seen. Re-arming is the consumer's explicit responsibility.

use vstd::prelude::*;

use crate::bits::and_not;
use crate::bits::bit;
use crate::bits::get_bit;
use crate::state::groups_preserved_except;
use crate::state::wakers_preserved;
use crate::state::Miwu;
use crate::wui::WuiMap;

verus! {

/// The waker tokens the dispatcher delivers for a pending snapshot `snap`
/// of flat group `g`, taking the set bits below position `n` in ascending
/// order and skipping empty slots.
pub open spec fn woken_below(m: Miwu, g: int, snap: u8, n: int) -> Seq<u64>
    decreases n,
{
    if n <= 0 {
        Seq::empty()
    } else {
        let rest = woken_below(m, g, snap, n - 1);
        if bit(snap, (n - 1) as u8) {
            match m.waker(g * 8 + (n - 1)) {
                Some(t) => rest.push(t),
                None => rest,
            }
        } else {
            rest
        }
    }
}

/// Effect of one dispatch pass over the group `group` of controller
/// `miwu_n`: every line of the pending snapshot has its enable bit cleared
/// and its registered waker woken, and nothing else in the unit moves — not
/// the pending bits, not the sibling lines' enables, not the waker slots.
pub open spec fn dispatch_effect(
    pre: Miwu,
    post: Miwu,
    miwu_n: u8,
    group: u8,
    woken: Seq<u64>,
) -> bool {
    let g = miwu_n * 8 + group;
    let pr = pre.regs(g as int);
    let po = post.regs(g as int);
    &&& post.wf()
    &&& forall|j: u8| j < 8 ==> bit(po.wken, j) == (bit(pr.wken, j) && !bit(pr.wkpnd, j))
    &&& po.wkmod == pr.wkmod
    &&& po.wkaedg == pr.wkaedg
    &&& po.wkedg == pr.wkedg
    &&& po.wkinen == pr.wkinen
    &&& po.wkpnd == pr.wkpnd
    &&& po.wkst == pr.wkst
    &&& groups_preserved_except(pre, post, g as int)
    &&& wakers_preserved(pre, post)
    &&& woken == woken_below(pre, g as int, pr.wkpnd, 8)
}

/// One interrupt entry: dispatch the pending snapshot of one group. The
/// returned tokens, in ascending bit order, are the notifications to
/// deliver; on hardware each goes to its line's registered waker.
pub fn on_irq(st: &mut Miwu, miwu_n: u8, group: u8) -> (woken: Vec<u64>)
    requires
        old(st).wf(),
        miwu_n < 3,
        group < 8,
    ensures
        dispatch_effect(*old(st), *final(st), miwu_n, group, woken@),
{
    let ghost st0 = *st;
    let ghost g = (miwu_n * 8 + group) as int;
    let snapshot = st.group_regs(miwu_n, group).wkpnd;
    let mut woken: Vec<u64> = Vec::new();
    for s in 0..8u8
        invariant
            st.wf(),
            *st == st0,
            miwu_n < 3,
            group < 8,
            snapshot == st0.regs(g).wkpnd,
            g == miwu_n * 8 + group,
            woken@ == woken_below(st0, g, snapshot, s as int),
    {
        if get_bit(snapshot, s) {
            let map = WuiMap { miwu_n, group, subgroup: s };
            proof {
                assert(map.index() == g * 8 + s);
            }
            match st.registered(map) {
                Some(t) => woken.push(t),
                None => {},
            }
        }
    }
    let mut r = st.group_regs(miwu_n, group);
    r.wken = and_not(r.wken, snapshot);
    st.set_group_regs(miwu_n, group, r);
    woken
}

} // verus!
