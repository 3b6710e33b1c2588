//! Condition codes: a three-bit flag set with named flags N (negative),
//! Z (zero), and P (positive), stored as bits 2, 1, and 0 of a word.

use vstd::prelude::*;

verus! {

/// The condition-code bits that [`CondCodes::from_signum`] assigns to `num`:
/// Z (`0b010`) when `num` is zero, N (`0b100`) when bit 15 of `num` is set,
/// and P (`0b001`) otherwise.
pub open spec fn signum_bits(num: u16) -> u16 {
    if num == 0 {
        2
    } else if num >= 0x8000 {
        4
    } else {
        1
    }
}

/// Condition codes: N (negative), Z (zero), and P (positive).
#[derive(Clone, Copy, PartialEq, Eq, Structural, Debug)]
pub struct CondCodes(u16);

impl View for CondCodes {
    type V = u16;

    closed spec fn view(&self) -> u16 {
        self.0
    }
}

impl CondCodes {
    /// N = Z = P = 0.
    pub fn no_flags() -> (r: CondCodes)
        ensures
            r@ == 0,
    {
        CondCodes(0)
    }

    /// N = 1; Z, P = 0.
    pub fn n_flag() -> (r: CondCodes)
        ensures
            r@ == 4,
    {
        CondCodes(4)
    }

    /// Z = 1; N, P = 0.
    pub fn z_flag() -> (r: CondCodes)
        ensures
            r@ == 2,
    {
        CondCodes(2)
    }

    /// P = 1; N, Z = 0.
    pub fn p_flag() -> (r: CondCodes)
        ensures
            r@ == 1,
    {
        CondCodes(1)
    }

    /// N = Z = P = 1.
    pub fn all_flags() -> (r: CondCodes)
        ensures
            r@ == 7,
    {
        CondCodes(7)
    }

    /// N = (N1 OR N2), Z = (Z1 OR Z2), P = (P1 OR P2).
    pub fn union(self, other: CondCodes) -> (r: CondCodes)
        ensures
            r@ == self@ | other@,
    {
        CondCodes(self.0 | other.0)
    }

    /// N = (N1 AND N2), Z = (Z1 AND Z2), P = (P1 AND P2).
    pub fn intersection(self, other: CondCodes) -> (r: CondCodes)
        ensures
            r@ == self@ & other@,
    {
        CondCodes(self.0 & other.0)
    }

    /// [`CondCodes`] from bits [2:0] of a 16-bit value.
    pub fn from_u16(value: u16) -> (r: CondCodes)
        ensures
            r@ == value & 7,
    {
        CondCodes(value & 0x7)
    }

    /// [`CondCodes`] from the signedness of a 16-bit word: Z if the word is
    /// zero, N if its sign bit (bit 15) is set, P otherwise.
    pub fn from_signum(num: u16) -> (r: CondCodes)
        ensures
            r@ == signum_bits(num),
    {
        if num == 0 {
            CondCodes(2)
        } else if num >= 0x8000 {
            CondCodes(4)
        } else {
            CondCodes(1)
        }
    }

    /// N, Z, P ?= 0.
    pub fn none(self) -> (r: bool)
        ensures
            r == (self@ == 0),
    {
        self.0 == 0
    }

    /// N ?= 1.
    pub fn negative(self) -> (r: bool)
        ensures
            r == ((self@ & 4) != 0),
    {
        self.0 & 4 != 0
    }

    /// Z ?= 1.
    pub fn zero(self) -> (r: bool)
        ensures
            r == ((self@ & 2) != 0),
    {
        self.0 & 2 != 0
    }

    /// P ?= 1.
    pub fn positive(self) -> (r: bool)
        ensures
            r == ((self@ & 1) != 0),
    {
        self.0 & 1 != 0
    }

    /// N = 1 OR Z = 1 OR P = 1.
    pub fn any(self) -> (r: bool)
        ensures
            r == (self@ != 0),
    {
        self.0 != 0
    }

    /// N, Z, P ?= 1.
    pub fn all(self) -> (r: bool)
        ensures
            r == (self@ == 7),
    {
        self.0 == 7
    }

    /// N1 ?= N2 AND Z1 ?= Z2 AND P1 ?= P2.
    pub fn is(self, other: CondCodes) -> (r: bool)
        ensures
            r == (self@ == other@),
    {
        self.0 == other.0
    }

    /// (N1 AND N2) OR (Z1 AND Z2) OR (P1 AND P2).
    pub fn intersects(self, other: CondCodes) -> (r: bool)
        ensures
            r == ((self@ & other@) != 0),
    {
        self.0 & other.0 != 0
    }
}

} // verus!
