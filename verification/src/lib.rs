//! Driver model for a Multi-Input Wake-Up (MIWU) unit.
//!
//! The MIWU fans up to 192 external signal lines into a small set of
//! interrupt vectors. Lines are grouped three levels deep — 3 controllers of
//! 8 groups of 8 subgroups — and the lines of one group share its registers
//! bit for bit. Each line can be armed on a level or edge condition, latches
//! a pending bit when the condition occurs, and can wake a suspended task
//! through a per-line waker slot.
//!
//! The crate verifies the whole driver against an explicit model of the
//! register file and the waker table ([`state::Miwu`]): coordinate mapping,
//! the enable/disable/clear/read operations, the hardware latch rule, the
//! interrupt dispatch pass, and the suspend/resume/abandon life cycle of a
//! wait. Platform plumbing — the memory-mapped register block, interrupt
//! vector binding, and the task runtime — stays outside and drives the same
//! sequences against real hardware.

use vstd::prelude::*;

pub mod bits;
pub mod dispatch;
pub mod driver;
pub mod laws;
pub mod mode;
pub mod state;
pub mod wait;
pub mod wui;

use crate::state::Miwu;

verus! {

/// Hand out the driver state as it stands at power-on reset: every register
/// of every group zero and no waker registered.
pub fn init() -> (m: Miwu)
    ensures
        m.wf(),
        m.is_reset(),
{
    Miwu::power_on_reset()
}

} // verus!
