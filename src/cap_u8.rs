use vstd::prelude::*;

use crate::error::{CapError, OutOfRange};
use crate::num::{add_mod, wrap, CapNum};

verus! {

/// A `u8` capped in the range `0..N`.
#[derive(Debug, Clone, Copy, Hash, PartialEq, Eq, PartialOrd, Ord)]
pub struct CapU8<const N: u8>(u8);

impl<const N: u8> View for CapU8<N> {
    type V = u8;

    closed spec fn view(&self) -> u8 {
        self.0
    }
}

impl<const N: u8> CapU8<N> {
    #[verifier::type_invariant]
    spec fn in_range(self) -> bool {
        self.0 < N
    }

    /// Create a new value from `value` by modulo `N`.
    pub fn new_wrap(value: u8) -> (r: Self)
        requires
            N > 0,
        ensures
            r@ == value % N,
    {
        CapU8(wrap(value as u64, N as u64) as u8)
    }

    /// Add `rhs` using modulo `N`.
    pub fn wrapping_add(self, rhs: u8) -> (r: Self)
        ensures
            r@ == (self@ + rhs) % (N as int),
            r@ == (self@ + rhs % N) % (N as int),
            r@ < N,
    {
        proof {
            use_type_invariant(self);
            crate::num::lemma_add_reduced(self@ as int, rhs as int, N as int);
        }
        CapU8(add_mod(self.0 as u64, rhs as u64, N as u64) as u8)
    }

    /// Hand out the current value and step to the next one, from `N - 1`
    /// back to `0`.
    pub fn take_increment(&mut self) -> (r: Self)
        ensures
            r == *old(self),
            final(self)@ == (old(self)@ + 1) % (N as int),
            final(self)@ == if old(self)@ + 1 == N { 0 } else { old(self)@ + 1 },
            final(self)@ == crate::num::after_steps(old(self)@ as int, 1, N as int),
    {
        proof {
            use_type_invariant(*self);
            crate::num::lemma_increment_cycles(self@ as int, N as int);
            reveal_with_fuel(crate::num::after_steps, 2);
        }
        let out = *self;
        *self = self.wrapping_add(1);
        out
    }

    /// Get the inner value.
    pub fn into_inner(self) -> (r: u8)
        ensures
            r == self@,
            r < N,
    {
        proof {
            use_type_invariant(self);
        }
        self.0
    }

    /// Check a number read from a wire format, in any width up to `u64`.
    pub fn from_wire(v: u64) -> (r: Result<Self, OutOfRange>)
        ensures
            r == Self::from_wire_spec(v),
            r matches Ok(x) ==> x@ == v,
            r is Err <==> v >= N,
    {
        if v < N as u64 {
            Ok(CapU8(v as u8))
        } else {
            Err(OutOfRange { value: v, cap: N as u64 })
        }
    }

    /// What reading `v` from a wire format gives.
    pub open spec fn from_wire_spec(v: u64) -> Result<Self, OutOfRange> {
        if v < N {
            Ok(Self::spec_from(v as u8))
        } else {
            Err(OutOfRange { value: v, cap: N as u64 })
        }
    }

    /// The value holding `v`.
    pub closed spec fn spec_from(v: u8) -> Self {
        CapU8(v)
    }

    /// A value written to a wire format as its inner number reads back as
    /// itself.
    pub proof fn lemma_wire_round_trip(self)
        requires
            self@ < N,
        ensures
            Self::from_wire_spec(self@ as u64) == Ok::<Self, OutOfRange>(self),
    {
    }
}

impl<const N: u8> CapNum for CapU8<N> {
    type Inner = u8;

    open spec fn spec_cap() -> nat {
        N as nat
    }

    open spec fn inner_int(v: u8) -> int {
        v as int
    }

    fn range() -> (r: core::ops::Range<u8>) {
        0..N
    }

    fn cap() -> (r: u64) {
        N as u64
    }
}

impl<const N: u8> TryFrom<u8> for CapU8<N> {
    type Error = CapError<Self>;

    fn try_from(value: u8) -> (r: Result<Self, CapError<Self>>)
        ensures
            r is Ok <==> value < N,
            r matches Ok(x) ==> x@ == value,
    {
        if value < N {
            Ok(CapU8(value))
        } else {
            Err(CapError(core::marker::PhantomData))
        }
    }
}

impl<const N: u8> vstd::std_specs::convert::TryFromSpecImpl<u8> for CapU8<N> {
    open spec fn obeys_try_from_spec() -> bool {
        true
    }

    open spec fn try_from_spec(value: u8) -> Result<Self, CapError<Self>> {
        if value < N {
            Ok(Self::spec_from(value))
        } else {
            Err(CapError(core::marker::PhantomData))
        }
    }
}

impl<const N: u8> core::ops::Deref for CapU8<N> {
    type Target = u8;

    fn deref(&self) -> (r: &u8) {
        &self.0
    }
}

impl<const N: u8> PartialEq<u8> for CapU8<N> {
    fn eq(&self, other: &u8) -> (r: bool) {
        self.0 == *other
    }
}

impl<const N: u8> vstd::std_specs::cmp::PartialEqSpecImpl<u8> for CapU8<N> {
    open spec fn obeys_eq_spec() -> bool {
        true
    }

    open spec fn eq_spec(&self, other: &u8) -> bool {
        self@ == *other
    }
}

impl<const N: u8> PartialEq<CapU8<N>> for u8 {
    fn eq(&self, other: &CapU8<N>) -> (r: bool) {
        *self == other.0
    }
}

impl<const N: u8> vstd::std_specs::cmp::PartialEqSpecImpl<CapU8<N>> for u8 {
    open spec fn obeys_eq_spec() -> bool {
        true
    }

    open spec fn eq_spec(&self, other: &CapU8<N>) -> bool {
        *self == other@
    }
}

} // verus!
