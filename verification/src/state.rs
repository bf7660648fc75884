//! The driver's model of the MIWU hardware: the register file of all 24
//! groups and the table of 192 per-line waker slots.
//!
//! Each group owns seven 8-bit registers, one bit per subgroup line:
//! `wken` (interrupt enable), `wkmod` (detection mode), `wkaedg` (any-edge),
//! `wkedg` (polarity), `wkinen` (input detection enable), `wkpnd` (latched
//! pending) and `wkst` (instantaneous level). The effect of every driver
//! and hardware step is stated as a relation between the state before and
//! after, bit for bit.

use vstd::prelude::*;

use crate::bits::bit;
use crate::bits::bits_except_eq;
use crate::bits::get_bit;
use crate::bits::write_bit;
use crate::mode::condition_met;
use crate::mode::condition_met_exec;
use crate::mode::ModeFields;
use crate::wui::WuiMap;

verus! {

/// One group's registers. A set bit refers to the subgroup line of its
/// position.
#[derive(Clone, Copy, Debug, PartialEq, Eq, Structural)]
pub struct GroupRegs {
    /// Interrupt enable: a set bit lets the line's pending event raise the
    /// group's interrupt.
    pub wken: u8,
    /// Detection mode: set selects edge detection, clear level detection.
    pub wkmod: u8,
    /// Any-edge: set makes both transitions of an edge-mode line trigger.
    pub wkaedg: u8,
    /// Polarity: set selects the high level, or the rising edge.
    pub wkedg: u8,
    /// Input detection enable: a set bit lets events latch the pending bit.
    pub wkinen: u8,
    /// Latched pending state, cleared only by software.
    pub wkpnd: u8,
    /// Instantaneous signal level of each line.
    pub wkst: u8,
}

/// Register values of a group at power-on reset.
pub open spec fn reset_group() -> GroupRegs {
    GroupRegs { wken: 0, wkmod: 0, wkaedg: 0, wkedg: 0, wkinen: 0, wkpnd: 0, wkst: 0 }
}

/// The whole unit: 24 register groups (3 controllers of 8 groups, flattened)
/// and one waker slot per line. A slot holds at most one registered
/// notification target, stood for by an opaque token.
pub struct Miwu {
    groups: Vec<GroupRegs>,
    wakers: Vec<Option<u64>>,
}

impl Miwu {
    /// The state holds every group and every slot.
    pub closed spec fn wf(self) -> bool {
        self.groups@.len() == 24 && self.wakers@.len() == 192
    }

    /// The registers of flat group `g` (controller times 8, plus group).
    pub closed spec fn regs(self, g: int) -> GroupRegs {
        self.groups@[g]
    }

    /// The waker token registered for line `l`, if any.
    pub closed spec fn waker(self, l: int) -> Option<u64> {
        self.wakers@[l]
    }

    /// Every register zero and no waker registered.
    pub open spec fn is_reset(self) -> bool {
        &&& forall|g: int| 0 <= g < 24 ==> self.regs(g) == reset_group()
        &&& forall|l: int| 0 <= l < 192 ==> self.waker(l) is None
    }

    /// Build the power-on reset state.
    pub fn power_on_reset() -> (m: Miwu)
        ensures
            m.wf(),
            m.is_reset(),
    {
        let mut groups: Vec<GroupRegs> = Vec::new();
        for i in 0..24usize
            invariant
                groups@.len() == i,
                forall|g: int| 0 <= g < i ==> groups@[g] == reset_group(),
        {
            groups.push(GroupRegs { wken: 0, wkmod: 0, wkaedg: 0, wkedg: 0, wkinen: 0, wkpnd: 0, wkst: 0 });
        }
        let mut wakers: Vec<Option<u64>> = Vec::new();
        for i in 0..192usize
            invariant
                wakers@.len() == i,
                forall|l: int| 0 <= l < i ==> wakers@[l] is None,
        {
            wakers.push(None);
        }
        Miwu { groups, wakers }
    }

    /// Read one group's registers in a single shot.
    pub fn group_regs(&self, miwu_n: u8, group: u8) -> (r: GroupRegs)
        requires
            self.wf(),
            miwu_n < 3,
            group < 8,
        ensures
            r == self.regs(miwu_n * 8 + group),
    {
        let g = (miwu_n * 8 + group) as usize;
        self.groups[g]
    }

    /// Replace one group's registers, leaving every other group and every
    /// waker slot untouched.
    pub(crate) fn set_group_regs(&mut self, miwu_n: u8, group: u8, r: GroupRegs)
        requires
            old(self).wf(),
            miwu_n < 3,
            group < 8,
        ensures
            final(self).wf(),
            final(self).regs(miwu_n * 8 + group) == r,
            groups_preserved_except(*old(self), *final(self), miwu_n * 8 + group),
            wakers_preserved(*old(self), *final(self)),
    {
        let g = (miwu_n * 8 + group) as usize;
        self.groups.set(g, r);
    }

    /// The waker token registered for the line at `map`, if any.
    pub fn registered(&self, map: WuiMap) -> (t: Option<u64>)
        requires
            self.wf(),
            map.wf(),
        ensures
            t == self.waker(map.index()),
    {
        let l = (map.miwu_n * 64 + map.group * 8 + map.subgroup) as usize;
        self.wakers[l]
    }

    /// Register `token` in the line's waker slot, replacing any previous
    /// occupant: the last writer wins.
    pub(crate) fn set_waker(&mut self, map: WuiMap, token: u64)
        requires
            old(self).wf(),
            map.wf(),
        ensures
            register_effect(*old(self), *final(self), map.index(), token),
    {
        let l = (map.miwu_n * 64 + map.group * 8 + map.subgroup) as usize;
        self.wakers.set(l, Some(token));
    }

    /// The hardware side: drive the line at `map` to level `high`. The
    /// level register follows the signal, and if input detection is enabled
    /// and the configured condition observes this transition, the line's
    /// pending bit latches. An already latched bit stays latched; a line
    /// whose detection is disabled only follows the level, and the event is
    /// otherwise lost.
    pub fn set_input_level(&mut self, map: WuiMap, high: bool)
        requires
            old(self).wf(),
            map.wf(),
        ensures
            event_effect(*old(self), *final(self), map, high),
    {
        let s = map.subgroup;
        let r = self.group_regs(map.miwu_n, map.group);
        let was = get_bit(r.wkst, s);
        let trig = get_bit(r.wkinen, s) && condition_met_exec(
            get_bit(r.wkmod, s),
            get_bit(r.wkaedg, s),
            get_bit(r.wkedg, s),
            was,
            high,
        );
        let mut n = r;
        n.wkst = write_bit(r.wkst, s, high);
        if trig {
            n.wkpnd = write_bit(r.wkpnd, s, true);
        }
        self.set_group_regs(map.miwu_n, map.group, n);
    }
}

/// Every group other than `g` is unchanged.
pub open spec fn groups_preserved_except(pre: Miwu, post: Miwu, g: int) -> bool {
    forall|h: int| 0 <= h < 24 && h != g ==> post.regs(h) == pre.regs(h)
}

/// Every group is unchanged.
pub open spec fn groups_preserved(pre: Miwu, post: Miwu) -> bool {
    forall|h: int| 0 <= h < 24 ==> post.regs(h) == pre.regs(h)
}

/// Every waker slot is unchanged.
pub open spec fn wakers_preserved(pre: Miwu, post: Miwu) -> bool {
    forall|l: int| 0 <= l < 192 ==> post.waker(l) == pre.waker(l)
}

/// Every waker slot other than `line` is unchanged.
pub open spec fn wakers_preserved_except(pre: Miwu, post: Miwu, line: int) -> bool {
    forall|l: int| 0 <= l < 192 && l != line ==> post.waker(l) == pre.waker(l)
}

/// Effect of enabling the line at `map` with field values `f`: its enable,
/// detection-enable and condition bits are configured, its stale pending bit
/// is cleared, and no other bit of the unit moves.
pub open spec fn enable_effect(pre: Miwu, post: Miwu, map: WuiMap, f: ModeFields) -> bool {
    let g = map.flat_group();
    let s = map.subgroup;
    let pr = pre.regs(g);
    let po = post.regs(g);
    &&& post.wf()
    &&& bit(po.wken, s)
    &&& bits_except_eq(po.wken, pr.wken, s)
    &&& bit(po.wkmod, s) == f.edge_mode
    &&& bits_except_eq(po.wkmod, pr.wkmod, s)
    &&& (match f.any_edge {
        Some(v) => bit(po.wkaedg, s) == v && bits_except_eq(po.wkaedg, pr.wkaedg, s),
        None => po.wkaedg == pr.wkaedg,
    })
    &&& (match f.polarity {
        Some(v) => bit(po.wkedg, s) == v && bits_except_eq(po.wkedg, pr.wkedg, s),
        None => po.wkedg == pr.wkedg,
    })
    &&& bit(po.wkinen, s)
    &&& bits_except_eq(po.wkinen, pr.wkinen, s)
    &&& !bit(po.wkpnd, s)
    &&& bits_except_eq(po.wkpnd, pr.wkpnd, s)
    &&& po.wkst == pr.wkst
    &&& groups_preserved_except(pre, post, g)
    &&& wakers_preserved(pre, post)
}

/// Effect of disabling the line at `map`: only its enable bit is cleared.
pub open spec fn disable_effect(pre: Miwu, post: Miwu, map: WuiMap) -> bool {
    let g = map.flat_group();
    let s = map.subgroup;
    let pr = pre.regs(g);
    let po = post.regs(g);
    &&& post.wf()
    &&& !bit(po.wken, s)
    &&& bits_except_eq(po.wken, pr.wken, s)
    &&& po.wkmod == pr.wkmod
    &&& po.wkaedg == pr.wkaedg
    &&& po.wkedg == pr.wkedg
    &&& po.wkinen == pr.wkinen
    &&& po.wkpnd == pr.wkpnd
    &&& po.wkst == pr.wkst
    &&& groups_preserved_except(pre, post, g)
    &&& wakers_preserved(pre, post)
}

/// Effect of clearing the line's latched pending bit: only that bit moves.
pub open spec fn clear_pending_effect(pre: Miwu, post: Miwu, map: WuiMap) -> bool {
    let g = map.flat_group();
    let s = map.subgroup;
    let pr = pre.regs(g);
    let po = post.regs(g);
    &&& post.wf()
    &&& !bit(po.wkpnd, s)
    &&& bits_except_eq(po.wkpnd, pr.wkpnd, s)
    &&& po.wken == pr.wken
    &&& po.wkmod == pr.wkmod
    &&& po.wkaedg == pr.wkaedg
    &&& po.wkedg == pr.wkedg
    &&& po.wkinen == pr.wkinen
    &&& po.wkst == pr.wkst
    &&& groups_preserved_except(pre, post, g)
    &&& wakers_preserved(pre, post)
}

/// Effect of abandoning a wait on the line at `map`: its enable bit and its
/// pending bit are both clear afterwards, whatever they were before, and
/// nothing else moves.
pub open spec fn abandon_effect(pre: Miwu, post: Miwu, map: WuiMap) -> bool {
    let g = map.flat_group();
    let s = map.subgroup;
    let pr = pre.regs(g);
    let po = post.regs(g);
    &&& post.wf()
    &&& !bit(po.wken, s)
    &&& bits_except_eq(po.wken, pr.wken, s)
    &&& !bit(po.wkpnd, s)
    &&& bits_except_eq(po.wkpnd, pr.wkpnd, s)
    &&& po.wkmod == pr.wkmod
    &&& po.wkaedg == pr.wkaedg
    &&& po.wkedg == pr.wkedg
    &&& po.wkinen == pr.wkinen
    &&& po.wkst == pr.wkst
    &&& groups_preserved_except(pre, post, g)
    &&& wakers_preserved(pre, post)
}

/// Effect of the hardware driving the line at `map` to level `high`: the
/// level bit follows the signal, the pending bit latches exactly when it was
/// already latched or when detection is enabled and the configured condition
/// observes this transition, and nothing else moves.
pub open spec fn event_effect(pre: Miwu, post: Miwu, map: WuiMap, high: bool) -> bool {
    let g = map.flat_group();
    let s = map.subgroup;
    let pr = pre.regs(g);
    let po = post.regs(g);
    &&& post.wf()
    &&& bit(po.wkst, s) == high
    &&& bits_except_eq(po.wkst, pr.wkst, s)
    &&& bit(po.wkpnd, s) == (bit(pr.wkpnd, s) || (bit(pr.wkinen, s) && condition_met(
        bit(pr.wkmod, s),
        bit(pr.wkaedg, s),
        bit(pr.wkedg, s),
        bit(pr.wkst, s),
        high,
    )))
    &&& bits_except_eq(po.wkpnd, pr.wkpnd, s)
    &&& po.wken == pr.wken
    &&& po.wkmod == pr.wkmod
    &&& po.wkaedg == pr.wkaedg
    &&& po.wkedg == pr.wkedg
    &&& po.wkinen == pr.wkinen
    &&& groups_preserved_except(pre, post, g)
    &&& wakers_preserved(pre, post)
}

/// Effect of registering `token` in the slot of line `line`: the slot holds
/// the token, every other slot and every register is unchanged.
pub open spec fn register_effect(pre: Miwu, post: Miwu, line: int, token: u64) -> bool {
    &&& post.wf()
    &&& post.waker(line) == Some(token)
    &&& wakers_preserved_except(pre, post, line)
    &&& groups_preserved(pre, post)
}

} // verus!
