//! The per-line driver handle.
//!
//! A [`WakeUp`] owns exactly one wake-up line; an outside ownership
//! mechanism hands out each line identity at most once, so the handle is the
//! sole entity that enables, disables, clears or queries its line. Every
//! multi-step register modification a handle performs touches registers
//! shared with up to seven sibling lines; on hardware the sequence runs
//! inside one critical section, and here it is one atomic step of the model.

use vstd::prelude::*;

use crate::bits::bit;
use crate::bits::get_bit;
use crate::bits::write_bit;
use crate::mode::fields_of;
use crate::mode::mode_fields;
use crate::mode::Mode;
use crate::state::clear_pending_effect;
use crate::state::disable_effect;
use crate::state::enable_effect;
use crate::state::Miwu;
use crate::wui::coordinate_of;
use crate::wui::lemma_map_round_trip;
use crate::wui::WuiIndex;
use crate::wui::WuiMap;

verus! {

/// A wake-up line identity. Implementors promise which line they stand for
/// through [`SealedWakeUpInput::map_spec`] and hand out its coordinate.
pub trait SealedWakeUpInput {
    /// The coordinate this identity is permanently bound to.
    spec fn map_spec(&self) -> WuiMap;

    /// The coordinate as a value.
    fn as_map(&self) -> (m: WuiMap)
        ensures
            m == self.map_spec(),
            m.wf(),
    ;
}

/// WakeUpInput (WUI) trait: a type that names one wake-up line.
pub trait WakeUpInput: SealedWakeUpInput {}

/// An ownership-erased wake-up line, stored as its compact index.
pub struct AnyWakeUpInput {
    wui: WuiIndex,
}

impl AnyWakeUpInput {
    /// The line's compact index.
    pub closed spec fn line(self) -> int {
        self.wui.index()
    }

    /// Bind the line with the given compact index.
    pub fn new(wui: WuiIndex) -> (r: Self)
        ensures
            r.line() == wui.index(),
            r.map_spec() == coordinate_of(wui.index()),
    {
        AnyWakeUpInput { wui }
    }

    /// Erase any line identity into its compact form.
    pub fn erase<W: WakeUpInput>(w: &W) -> (r: Self)
        ensures
            r.line() == w.map_spec().index(),
            r.map_spec() == w.map_spec(),
    {
        let m = w.as_map();
        proof {
            lemma_map_round_trip(m);
        }
        AnyWakeUpInput { wui: WuiIndex::new(m) }
    }
}

impl SealedWakeUpInput for AnyWakeUpInput {
    closed spec fn map_spec(&self) -> WuiMap {
        coordinate_of(self.wui.index())
    }

    fn as_map(&self) -> (m: WuiMap) {
        self.wui.to_map()
    }
}

impl WakeUpInput for AnyWakeUpInput {}

/// WakeUpInput (WUI) driver: the live handle owning one line.
pub struct WakeUp {
    wui: AnyWakeUpInput,
}

impl WakeUp {
    /// The coordinate of the owned line.
    pub closed spec fn map(self) -> WuiMap {
        self.wui.map_spec()
    }

    /// The compact index of the owned line.
    pub open spec fn line(self) -> int {
        self.map().index()
    }

    /// Construct the driver for a line without enabling any signalling
    /// condition.
    pub fn new<W: WakeUpInput>(wui: W) -> (r: Self)
        ensures
            r.map() == wui.map_spec(),
    {
        let m = wui.as_map();
        let r = WakeUp { wui: AnyWakeUpInput::erase(&wui) };
        proof {
            lemma_map_round_trip(m);
        }
        r
    }

    /// The owned line's coordinate.
    pub fn as_map(&self) -> (m: WuiMap)
        ensures
            m == self.map(),
            m.wf(),
    {
        self.wui.as_map()
    }

    /// Enable the line with the signalling condition `mode`, letting it
    /// trigger the wake-up signal and the group's interrupt. One atomic
    /// step: the line is taken down, its condition fields and detection
    /// enable are written, its stale pending bit is cleared, and its enable
    /// bit is set last. Sibling lines of the shared group are untouched.
    pub fn enable(&mut self, st: &mut Miwu, mode: Mode)
        requires
            old(st).wf(),
        ensures
            *final(self) == *old(self),
            enable_effect(*old(st), *final(st), old(self).map(), fields_of(mode)),
    {
        let map = self.as_map();
        let f = mode_fields(mode);
        let s = map.subgroup;
        let r0 = st.group_regs(map.miwu_n, map.group);
        let mut r = r0;
        r.wken = write_bit(r.wken, s, false);
        r.wkmod = write_bit(r.wkmod, s, f.edge_mode);
        if let Some(v) = f.any_edge {
            r.wkaedg = write_bit(r.wkaedg, s, v);
        }
        if let Some(v) = f.polarity {
            r.wkedg = write_bit(r.wkedg, s, v);
        }
        r.wkinen = write_bit(r.wkinen, s, true);
        r.wkpnd = write_bit(r.wkpnd, s, false);
        r.wken = write_bit(r.wken, s, true);
        st.set_group_regs(map.miwu_n, map.group, r);
    }

    /// Disable the line, forbidding the wake-up signal and the interrupt:
    /// only its enable bit is cleared. Idempotent.
    pub fn disable(&mut self, st: &mut Miwu)
        requires
            old(st).wf(),
        ensures
            *final(self) == *old(self),
            disable_effect(*old(st), *final(st), old(self).map()),
    {
        let map = self.as_map();
        let mut r = st.group_regs(map.miwu_n, map.group);
        r.wken = write_bit(r.wken, map.subgroup, false);
        st.set_group_regs(map.miwu_n, map.group, r);
    }

    /// Clear the line's latched pending bit. A single-bit write-to-clear
    /// that disturbs no sibling bit.
    pub fn clear_pending(&mut self, st: &mut Miwu)
        requires
            old(st).wf(),
        ensures
            *final(self) == *old(self),
            clear_pending_effect(*old(st), *final(st), old(self).map()),
    {
        let map = self.as_map();
        let mut r = st.group_regs(map.miwu_n, map.group);
        r.wkpnd = write_bit(r.wkpnd, map.subgroup, false);
        st.set_group_regs(map.miwu_n, map.group, r);
    }

    /// Whether the input signal is high right now, regardless of the
    /// configured condition. Pure read.
    pub fn is_high(&self, st: &Miwu) -> (r: bool)
        requires
            st.wf(),
        ensures
            r == bit(st.regs(self.map().flat_group()).wkst, self.map().subgroup),
    {
        let map = self.as_map();
        get_bit(st.group_regs(map.miwu_n, map.group).wkst, map.subgroup)
    }

    /// Whether the configured signalling condition has latched. Pure read.
    pub fn is_pending(&self, st: &Miwu) -> (r: bool)
        requires
            st.wf(),
        ensures
            r == bit(st.regs(self.map().flat_group()).wkpnd, self.map().subgroup),
    {
        let map = self.as_map();
        get_bit(st.group_regs(map.miwu_n, map.group).wkpnd, map.subgroup)
    }

    /// Give the handle up. The line is disabled on the way out, whatever
    /// state it was in, so no line stays armed after its owner is gone.
    pub fn release(self, st: &mut Miwu)
        requires
            old(st).wf(),
        ensures
            disable_effect(*old(st), *final(st), self.map()),
    {
        let mut this = self;
        this.disable(st);
    }
}

} // verus!
