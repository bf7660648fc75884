//! Single-bit views and operations on 8-bit registers.
//!
//! Every MIWU register is eight bits wide, one bit per subgroup line, so all
//! register reasoning reduces to statements about individual bits of a `u8`.

use vstd::prelude::*;

verus! {

/// True when bit `i` of `x` is set.
pub open spec fn bit(x: u8, i: u8) -> bool {
    (x >> i) & 1 == 1
}

/// All bits of `a` and `b` agree except possibly bit `s`.
pub open spec fn bits_except_eq(a: u8, b: u8, s: u8) -> bool {
    forall|j: u8| j < 8 && j != s ==> bit(a, j) == bit(b, j)
}

/// Two bytes whose eight bits all agree are the same byte.
pub proof fn lemma_bits_extensional(a: u8, b: u8)
    requires
        forall|j: u8| j < 8 ==> bit(a, j) == bit(b, j),
    ensures
        a == b,
{
    assert(a == b) by (bit_vector)
        requires
            bit(a, 0) == bit(b, 0),
            bit(a, 1) == bit(b, 1),
            bit(a, 2) == bit(b, 2),
            bit(a, 3) == bit(b, 3),
            bit(a, 4) == bit(b, 4),
            bit(a, 5) == bit(b, 5),
            bit(a, 6) == bit(b, 6),
            bit(a, 7) == bit(b, 7),
    ;
}

/// Read bit `i` of `x`.
pub fn get_bit(x: u8, i: u8) -> (b: bool)
    requires
        i < 8,
    ensures
        b == bit(x, i),
{
    (x >> i) & 1 == 1
}

/// Return `x` with bit `i` set to `v` and every other bit unchanged.
pub fn write_bit(x: u8, i: u8, v: bool) -> (r: u8)
    requires
        i < 8,
    ensures
        bit(r, i) == v,
        bits_except_eq(r, x, i),
{
    let r = if v {
        x | (1u8 << i)
    } else {
        x & !(1u8 << i)
    };
    proof {
        assert(bit(r, i) == v && forall|j: u8|
            j < 8 && j != i ==> bit(r, j) == bit(x, j)) by (bit_vector)
            requires
                i < 8,
                r == if v { x | (1u8 << i) } else { x & !(1u8 << i) },
        ;
    }
    r
}

/// Return `x & !m`: every bit of `m` cleared in `x`, the rest unchanged.
pub fn and_not(x: u8, m: u8) -> (r: u8)
    ensures
        forall|j: u8| j < 8 ==> bit(r, j) == (bit(x, j) && !bit(m, j)),
{
    let r = x & !m;
    proof {
        assert(forall|j: u8| j < 8 ==> bit(r, j) == (bit(x, j) && !bit(m, j))) by (bit_vector)
            requires
                r == x & !m,
        ;
    }
    r
}

} // verus!
