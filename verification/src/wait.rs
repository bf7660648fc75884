//! The asynchronous wait bridge: suspend on a line's condition, resume when
//! its pending bit latches, clean up when the wait is abandoned.
//!
//! A wait is one suspension per line: starting it enables the condition and
//! yields a [`WakeUpInputFuture`]. Each resume attempt registers the
//! caller's waker in the line's slot — the last writer wins, so a second
//! concurrent wait on the same line silently steals the slot — and then
//! re-checks the pending bit. Abandoning the wait before it completes
//! disables the line and clears its pending bit unconditionally, whether or
//! not the interrupt dispatcher already fired, so no notification leaks past
//! an abandoned wait. Completion does not re-arm the line: re-enabling is
//! the caller's explicit responsibility.

use vstd::prelude::*;

use crate::bits::bit;
use crate::bits::get_bit;
use crate::bits::write_bit;
use crate::driver::WakeUp;
use crate::mode::fields_of;
use crate::mode::Level;
use crate::mode::Mode;
use crate::state::abandon_effect;
use crate::state::enable_effect;
use crate::state::register_effect;
use crate::state::Miwu;
use crate::wui::WuiMap;

verus! {

/// An in-progress wait on one line's signalling condition.
pub struct WakeUpInputFuture {
    map: WuiMap,
}

impl WakeUpInputFuture {
    /// A wait always targets a real hardware coordinate.
    #[verifier::type_invariant]
    closed spec fn inv(self) -> bool {
        self.map.wf()
    }

    /// The coordinate of the awaited line.
    pub closed spec fn target(self) -> WuiMap {
        self.map
    }

    /// One resume attempt: register the waker token in the line's slot,
    /// replacing any previous occupant, then re-check the latched pending
    /// bit. The wait completes exactly when that bit is set.
    pub fn poll(&self, st: &mut Miwu, waker: u64) -> (ready: bool)
        requires
            old(st).wf(),
        ensures
            register_effect(*old(st), *final(st), self.target().index(), waker),
            ready == bit(old(st).regs(self.target().flat_group()).wkpnd, self.target().subgroup),
    {
        proof {
            use_type_invariant(self);
        }
        st.set_waker(self.map, waker);
        get_bit(st.group_regs(self.map.miwu_n, self.map.group).wkpnd, self.map.subgroup)
    }

    /// Abandon the wait before completion: disable the line, then clear its
    /// pending bit, unconditionally and idempotently. No assumption is made
    /// about whether the hardware event or the dispatcher already ran.
    pub fn abandon(self, st: &mut Miwu)
        requires
            old(st).wf(),
        ensures
            abandon_effect(*old(st), *final(st), self.target()),
    {
        proof {
            use_type_invariant(&self);
        }
        let map = self.map;
        let mut r = st.group_regs(map.miwu_n, map.group);
        r.wken = write_bit(r.wken, map.subgroup, false);
        st.set_group_regs(map.miwu_n, map.group, r);
        let mut r2 = st.group_regs(map.miwu_n, map.group);
        r2.wkpnd = write_bit(r2.wkpnd, map.subgroup, false);
        st.set_group_regs(map.miwu_n, map.group, r2);
    }
}

impl WakeUp {
    /// Configure the signalling condition `mode` and start a wait for it to
    /// be signalled: the line is enabled and the suspension handle for it is
    /// returned.
    pub fn wait_for(&mut self, st: &mut Miwu, mode: Mode) -> (fut: WakeUpInputFuture)
        requires
            old(st).wf(),
        ensures
            *final(self) == *old(self),
            enable_effect(*old(st), *final(st), old(self).map(), fields_of(mode)),
            fut.target() == old(self).map(),
    {
        self.enable(st, mode);
        WakeUpInputFuture { map: self.as_map() }
    }

    /// Start a wait for the [`Level::High`] signalling condition.
    pub fn wait_for_high(&mut self, st: &mut Miwu) -> (fut: WakeUpInputFuture)
        requires
            old(st).wf(),
        ensures
            *final(self) == *old(self),
            enable_effect(*old(st), *final(st), old(self).map(), fields_of(Mode::Level(Level::High))),
            fut.target() == old(self).map(),
    {
        self.wait_for(st, Mode::Level(Level::High))
    }

    /// Start a wait for the [`Level::Low`] signalling condition.
    pub fn wait_for_low(&mut self, st: &mut Miwu) -> (fut: WakeUpInputFuture)
        requires
            old(st).wf(),
        ensures
            *final(self) == *old(self),
            enable_effect(*old(st), *final(st), old(self).map(), fields_of(Mode::Level(Level::Low))),
            fut.target() == old(self).map(),
    {
        self.wait_for(st, Mode::Level(Level::Low))
    }
}

} // verus!
