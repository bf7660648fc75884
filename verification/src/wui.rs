//! Line identities: the compact index of a wake-up line and its expanded
//! register coordinate.
//!
//! A MIWU line is addressed two ways: as a compact index in `0..192`, used to
//! key the waker table, and as a (controller, group, subgroup) coordinate,
//! used to pick a register block and a bit within it. The two forms are
//! losslessly interconvertible.

use vstd::prelude::*;

verus! {

/// Number of MIWU controllers.
pub const MIWU_COUNT: u8 = 3;

/// Number of register groups per controller.
pub const GROUP_COUNT: u8 = 8;

/// Number of subgroup lines per group.
pub const SUBGROUP_COUNT: u8 = 8;

/// Total number of wake-up lines.
pub const WUI_COUNT: u8 = 192;

/// Expanded coordinate of a wake-up line: which controller, which register
/// group of that controller, and which bit of that group's registers.
#[derive(Clone, Copy, Debug, PartialEq, Eq, Structural)]
pub struct WuiMap {
    pub miwu_n: u8,
    pub group: u8,
    pub subgroup: u8,
}

impl WuiMap {
    /// The coordinate addresses real hardware: controller below 3, group and
    /// subgroup below 8.
    pub open spec fn wf(self) -> bool {
        self.miwu_n < MIWU_COUNT && self.group < GROUP_COUNT && self.subgroup < SUBGROUP_COUNT
    }

    /// The compact index of this coordinate.
    pub open spec fn index(self) -> int {
        self.miwu_n * 64 + self.group * 8 + self.subgroup
    }

    /// The flat number of this coordinate's register group, in `0..24`.
    pub open spec fn flat_group(self) -> int {
        self.miwu_n * 8 + self.group
    }
}

/// The coordinate that a compact index expands to.
pub open spec fn coordinate_of(i: int) -> WuiMap {
    WuiMap {
        miwu_n: (i / 64) as u8,
        group: ((i / 8) % 8) as u8,
        subgroup: (i % 8) as u8,
    }
}

/// Compact identity of a wake-up line: an index in `0..192`.
#[derive(Clone, Copy, Debug, PartialEq, Eq, Structural)]
pub struct WuiIndex(u8);

impl WuiIndex {
    /// A line index is always below [`WUI_COUNT`].
    #[verifier::type_invariant]
    pub closed spec fn wf(self) -> bool {
        self.0 < WUI_COUNT
    }

    /// The index as a number.
    pub closed spec fn index(self) -> int {
        self.0 as int
    }

    /// The index as a machine value, always below [`WUI_COUNT`].
    pub fn value(&self) -> (v: u8)
        ensures
            v == self.index(),
            v < WUI_COUNT,
    {
        proof {
            use_type_invariant(self);
        }
        self.0
    }

    /// Pack a coordinate into its compact index.
    pub fn new(map: WuiMap) -> (r: Self)
        requires
            map.wf(),
        ensures
            r.index() == map.index(),
    {
        let i = map.miwu_n * SUBGROUP_COUNT * GROUP_COUNT + map.group * SUBGROUP_COUNT
            + map.subgroup;
        assert(i < WUI_COUNT);
        Self(i)
    }

    /// Expand the compact index back into its coordinate.
    pub fn to_map(self) -> (m: WuiMap)
        ensures
            m == coordinate_of(self.index()),
            m.wf(),
            m.index() == self.index(),
    {
        proof {
            use_type_invariant(self);
        }
        let (r, subgroup) = div_rem(self.0, SUBGROUP_COUNT);
        let (miwu_n, group) = div_rem(r, GROUP_COUNT);
        assert(miwu_n < MIWU_COUNT);
        proof {
            lemma_coordinate_round_trip(self.0 as int);
            let x = self.0;
            assert(x / 8 / 8 == x / 64) by (bit_vector);
        }
        WuiMap { miwu_n, group, subgroup }
    }
}

/// Quotient and remainder of `x` by `y` in one step.
pub fn div_rem(x: u8, y: u8) -> (r: (u8, u8))
    requires
        y != 0,
    ensures
        r.0 == x / y,
        r.1 == x % y,
{
    (x / y, x % y)
}

/// Expanding a compact line index to its coordinate and packing that
/// coordinate again yields the index it came from, for every index in
/// `0..192`.
pub proof fn lemma_coordinate_round_trip(i: int)
    requires
        0 <= i < 192,
    ensures
        coordinate_of(i).wf(),
        coordinate_of(i).index() == i,
{
    let x = i as u8;
    assert(x / 64 < 3 && (x / 8) % 8 < 8 && x % 8 < 8 && (x / 64) * 64 + ((x / 8) % 8) * 8 + x % 8
        == x) by (bit_vector)
        requires
            x < 192,
    ;
    assert(i / 64 == x / 64 && (i / 8) % 8 == (x / 8) % 8 && i % 8 == x % 8);
}

/// Packing a coordinate into its compact index and expanding that index again
/// yields the coordinate it came from, for every hardware coordinate.
pub proof fn lemma_map_round_trip(m: WuiMap)
    requires
        m.wf(),
    ensures
        coordinate_of(m.index()) == m,
{
    let i = m.index();
    assert(0 <= i < 192);
    assert(i / 64 == m.miwu_n && (i / 8) % 8 == m.group && i % 8 == m.subgroup) by (nonlinear_arith)
        requires
            m.miwu_n < 3,
            m.group < 8,
            m.subgroup < 8,
            i == m.miwu_n * 64 + m.group * 8 + m.subgroup,
    ;
}

} // verus!
