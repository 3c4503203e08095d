use vstd::prelude::*;

use crate::error::{CapError, OutOfRange};
use crate::num::{add_mod, wrap, CapNum};

verus! {

/// A `u64` capped in the range `0..N`.
#[derive(Debug, Clone, Copy, Hash, PartialEq, Eq, PartialOrd, Ord)]
pub struct CapU64<const N: u64>(u64);

impl<const N: u64> View for CapU64<N> {
    type V = u64;

    closed spec fn view(&self) -> u64 {
        self.0
    }
}

impl<const N: u64> CapU64<N> {
    #[verifier::type_invariant]
    spec fn in_range(self) -> bool {
        self.0 < N
    }

    /// Create a new value from `value` by modulo `N`.
    pub fn new_wrap(value: u64) -> (r: Self)
        requires
            N > 0,
        ensures
            r@ == value % N,
    {
        CapU64(wrap(value as u64, N as u64) as u64)
    }

    /// Add `rhs` using modulo `N`.
    pub fn wrapping_add(self, rhs: u64) -> (r: Self)
        ensures
            r@ == (self@ + rhs) % (N as int),
            r@ == (self@ + rhs % N) % (N as int),
            r@ < N,
    {
        proof {
            use_type_invariant(self);
            crate::num::lemma_add_reduced(self@ as int, rhs as int, N as int);
        }
        CapU64(add_mod(self.0 as u64, rhs as u64, N as u64) as u64)
    }

    /// Hand out the current value and step to the next one, from `N - 1`
    /// back to `0`.
    pub fn take_increment(&mut self) -> (r: Self)
        ensures
            r == *old(self),
            final(self)@ == (old(self)@ + 1) % (N as int),
            final(self)@ == if old(self)@ + 1 == N { 0 } else { old(self)@ + 1 },
            final(self)@ == crate::num::after_steps(old(self)@ as int, 1, N as int),
    {
        proof {
            use_type_invariant(*self);
            crate::num::lemma_increment_cycles(self@ as int, N as int);
            reveal_with_fuel(crate::num::after_steps, 2);
        }
        let out = *self;
        *self = self.wrapping_add(1);
        out
    }

    /// Get the inner value.
    pub fn into_inner(self) -> (r: u64)
        ensures
            r == self@,
            r < N,
    {
        proof {
            use_type_invariant(self);
        }
        self.0
    }

    /// Check a number read from a wire format, in any width up to `u64`.
    pub fn from_wire(v: u64) -> (r: Result<Self, OutOfRange>)
        ensures
            r == Self::from_wire_spec(v),
            r matches Ok(x) ==> x@ == v,
            r is Err <==> v >= N,
    {
        if v < N as u64 {
            Ok(CapU64(v as u64))
        } else {
            Err(OutOfRange { value: v, cap: N as u64 })
        }
    }

    /// What reading `v` from a wire format gives.
    pub open spec fn from_wire_spec(v: u64) -> Result<Self, OutOfRange> {
        if v < N {
            Ok(Self::spec_from(v as u64))
        } else {
            Err(OutOfRange { value: v, cap: N as u64 })
        }
    }

    /// The value holding `v`.
    pub closed spec fn spec_from(v: u64) -> Self {
        CapU64(v)
    }

    /// A value written to a wire format as its inner number reads back as
    /// itself.
    pub proof fn lemma_wire_round_trip(self)
        requires
            self@ < N,
        ensures
            Self::from_wire_spec(self@ as u64) == Ok::<Self, OutOfRange>(self),
    {
    }
}

impl<const N: u64> CapNum for CapU64<N> {
    type Inner = u64;

    open spec fn spec_cap() -> nat {
        N as nat
    }

    open spec fn inner_int(v: u64) -> int {
        v as int
    }

    fn range() -> (r: core::ops::Range<u64>) {
        0..N
    }

    fn cap() -> (r: u64) {
        N as u64
    }
}

impl<const N: u64> TryFrom<u64> for CapU64<N> {
    type Error = CapError<Self>;

    fn try_from(value: u64) -> (r: Result<Self, CapError<Self>>)
        ensures
            r is Ok <==> value < N,
            r matches Ok(x) ==> x@ == value,
    {
        if value < N {
            Ok(CapU64(value))
        } else {
            Err(CapError(core::marker::PhantomData))
        }
    }
}

impl<const N: u64> vstd::std_specs::convert::TryFromSpecImpl<u64> for CapU64<N> {
    open spec fn obeys_try_from_spec() -> bool {
        true
    }

    open spec fn try_from_spec(value: u64) -> Result<Self, CapError<Self>> {
        if value < N {
            Ok(Self::spec_from(value))
        } else {
            Err(CapError(core::marker::PhantomData))
        }
    }
}

impl<const N: u64> core::ops::Deref for CapU64<N> {
    type Target = u64;

    fn deref(&self) -> (r: &u64) {
        &self.0
    }
}

impl<const N: u64> PartialEq<u64> for CapU64<N> {
    fn eq(&self, other: &u64) -> (r: bool) {
        self.0 == *other
    }
}

impl<const N: u64> vstd::std_specs::cmp::PartialEqSpecImpl<u64> for CapU64<N> {
    open spec fn obeys_eq_spec() -> bool {
        true
    }

    open spec fn eq_spec(&self, other: &u64) -> bool {
        self@ == *other
    }
}

impl<const N: u64> PartialEq<CapU64<N>> for u64 {
    fn eq(&self, other: &CapU64<N>) -> (r: bool) {
        *self == other.0
    }
}

impl<const N: u64> vstd::std_specs::cmp::PartialEqSpecImpl<CapU64<N>> for u64 {
    open spec fn obeys_eq_spec() -> bool {
        true
    }

    open spec fn eq_spec(&self, other: &CapU64<N>) -> bool {
        *self == other@
    }
}

} // verus!
