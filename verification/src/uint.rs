//! A 256-bit unsigned integer whose arithmetic is carried out by
//! `stylus_sdk::alloy_primitives::U256`, which is `ruint::Uint<256, 4>`.
//!
//! The limbs go to that type through its `from_limbs` and come back through
//! its `into_limbs`, both of which have them least significant first, as
//! [`U256`] does.

use vstd::prelude::*;

verus! {

/// An unsigned 256-bit integer, held as four 64-bit limbs, least significant first.
#[derive(Clone, Copy, Debug, Eq)]
pub struct U256 {
    pub limbs: [u64; 4],
}

/// The largest value a [`U256`] can hold, `2^256 - 1`.
pub open spec fn u256_max() -> nat {
    0xffff_ffff_ffff_ffff_ffff_ffff_ffff_ffff_ffff_ffff_ffff_ffff_ffff_ffff_ffff_ffffnat
}

/// The number that four little-endian 64-bit limbs stand for.
pub open spec fn limbs_value(l0: u64, l1: u64, l2: u64, l3: u64) -> nat {
    (l0 as nat) + (l1 as nat) * 0x1_0000_0000_0000_0000nat + (l2 as nat)
        * 0x1_0000_0000_0000_0000_0000_0000_0000_0000nat + (l3 as nat)
        * 0x1_0000_0000_0000_0000_0000_0000_0000_0000_0000_0000_0000_0000nat
}

impl View for U256 {
    type V = nat;

    open spec fn view(&self) -> nat {
        limbs_value(self.limbs[0], self.limbs[1], self.limbs[2], self.limbs[3])
    }
}

impl PartialEq for U256 {
    fn eq(&self, other: &Self) -> (r: bool) {
        let r = self.limbs[0] == other.limbs[0] && self.limbs[1] == other.limbs[1]
            && self.limbs[2] == other.limbs[2] && self.limbs[3] == other.limbs[3];
        proof {
            if r {
                assert(self.limbs =~= other.limbs);
            }
        }
        r
    }
}

impl vstd::std_specs::cmp::PartialEqSpecImpl for U256 {
    open spec fn obeys_eq_spec() -> bool {
        true
    }

    open spec fn eq_spec(&self, other: &Self) -> bool {
        *self == *other
    }
}

impl U256 {
    /// Every value lies in `0 ..= 2^256 - 1`.
    pub proof fn lemma_bounded(self)
        ensures
            self@ <= u256_max(),
    {
    }

    /// Two values with the same number are the same value.
    pub proof fn lemma_injective(self, other: U256)
        ensures
            self@ == other@ <==> self == other,
    {
        if self@ == other@ {
            assert(self.limbs[0] == other.limbs[0]);
            assert(self.limbs[1] == other.limbs[1]);
            assert(self.limbs[2] == other.limbs[2]);
            assert(self.limbs[3] == other.limbs[3]);
            assert(self.limbs =~= other.limbs);
        }
    }

    /// The value zero.
    pub fn zero() -> (r: U256)
        ensures
            r@ == 0,
    {
        U256 { limbs: [0, 0, 0, 0] }
    }

    /// The largest value, `2^256 - 1`.
    pub fn max_value() -> (r: U256)
        ensures
            r@ == u256_max(),
    {
        U256 { limbs: [u64::MAX, u64::MAX, u64::MAX, u64::MAX] }
    }

    /// The value of a 64-bit integer.
    pub fn from_u64(x: u64) -> (r: U256)
        ensures
            r@ == x,
    {
        U256 { limbs: [x, 0, 0, 0] }
    }

    /// The value of a machine-sized integer.
    pub fn from_usize(x: usize) -> (r: U256)
        ensures
            r@ == x,
    {
        U256 { limbs: [x as u64, 0, 0, 0] }
    }

    /// The value as a machine-sized integer, where it fits in one.
    pub fn to_usize(&self) -> (r: Option<usize>)
        ensures
            match r {
                Some(x) => x == self@,
                None => self@ > usize::MAX,
            },
    {
        if self.limbs[1] == 0 && self.limbs[2] == 0 && self.limbs[3] == 0 && self.limbs[0]
            <= usize::MAX as u64 {
            Some(self.limbs[0] as usize)
        } else {
            None
        }
    }

    /// Whether the value is zero.
    pub fn is_zero(&self) -> (r: bool)
        ensures
            r == (self@ == 0),
    {
        self.limbs[0] == 0 && self.limbs[1] == 0 && self.limbs[2] == 0 && self.limbs[3] == 0
    }

    /// Whether the value is strictly below `other`.
    pub fn lt(&self, other: &U256) -> (r: bool)
        ensures
            r == (self@ < other@),
    {
        if self.limbs[3] != other.limbs[3] {
            self.limbs[3] < other.limbs[3]
        } else if self.limbs[2] != other.limbs[2] {
            self.limbs[2] < other.limbs[2]
        } else if self.limbs[1] != other.limbs[1] {
            self.limbs[1] < other.limbs[1]
        } else {
            self.limbs[0] < other.limbs[0]
        }
    }

    /// Whether the value is at most `other`.
    pub fn le(&self, other: &U256) -> (r: bool)
        ensures
            r == (self@ <= other@),
    {
        !other.lt(self)
    }

    /// Calls `+` of `stylus_sdk::alloy_primitives::U256`, which adds modulo `2^256`: where the
    /// sum fits in 256 bits, as is required here, the result is the sum itself.
    #[verifier::external_body]
    pub(crate) fn plus(&self, rhs: &U256) -> (r: U256)
        requires
            self@ + rhs@ <= u256_max(),
        ensures
            r@ == self@ + rhs@,
    {
        let a = stylus_sdk::alloy_primitives::U256::from_limbs(self.limbs);
        let b = stylus_sdk::alloy_primitives::U256::from_limbs(rhs.limbs);
        U256 { limbs: (a + b).into_limbs() }
    }

    /// Calls `-` of `stylus_sdk::alloy_primitives::U256`, which subtracts modulo `2^256`: where
    /// `rhs` is not above `self`, as is required here, the result is the difference.
    #[verifier::external_body]
    pub(crate) fn minus(&self, rhs: &U256) -> (r: U256)
        requires
            rhs@ <= self@,
        ensures
            r@ == self@ - rhs@,
    {
        let a = stylus_sdk::alloy_primitives::U256::from_limbs(self.limbs);
        let b = stylus_sdk::alloy_primitives::U256::from_limbs(rhs.limbs);
        U256 { limbs: (a - b).into_limbs() }
    }

    /// Calls `*` of `stylus_sdk::alloy_primitives::U256`, which multiplies modulo `2^256`: where
    /// the product fits in 256 bits, as is required here, the result is the product.
    #[verifier::external_body]
    pub(crate) fn times(&self, rhs: &U256) -> (r: U256)
        requires
            self@ * rhs@ <= u256_max(),
        ensures
            r@ == self@ * rhs@,
    {
        let a = stylus_sdk::alloy_primitives::U256::from_limbs(self.limbs);
        let b = stylus_sdk::alloy_primitives::U256::from_limbs(rhs.limbs);
        U256 { limbs: (a * b).into_limbs() }
    }

    /// Calls `stylus_sdk::alloy_primitives::U256::div_rem`, which panics on a zero divisor and
    /// otherwise returns the quotient rounded down together with the remainder.
    #[verifier::external_body]
    pub(crate) fn div_rem(&self, rhs: &U256) -> (r: (U256, U256))
        requires
            rhs@ != 0,
        ensures
            r.0@ == self@ / rhs@,
            r.1@ == self@ % rhs@,
    {
        let a = stylus_sdk::alloy_primitives::U256::from_limbs(self.limbs);
        let b = stylus_sdk::alloy_primitives::U256::from_limbs(rhs.limbs);
        let (q, m) = a.div_rem(b);
        (U256 { limbs: q.into_limbs() }, U256 { limbs: m.into_limbs() })
    }
}

} // verus!
