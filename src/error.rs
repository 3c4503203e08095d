use vstd::prelude::*;

use crate::num::CapNum;
use crate::text::{decimal, push_text, write_decimal};

verus! {

/// Error produced when a value is outside the range of the capped type `T`.
#[derive(Debug, Copy, PartialEq, Eq)]
pub struct CapError<T>(pub core::marker::PhantomData<T>);

impl<T> Clone for CapError<T> {
    fn clone(&self) -> (r: Self)
        ensures
            r == *self,
    {
        CapError(core::marker::PhantomData)
    }
}

/// Error produced when a number read from a wire format does not fit under a
/// cap.
#[derive(Debug, Clone, Copy, PartialEq, Eq, Structural)]
pub struct OutOfRange {
    /// The number that was read.
    pub value: u64,
    /// The cap it had to stay below.
    pub cap: u64,
}

/// The message of a range error for the cap `cap`.
pub open spec fn range_message(cap: nat) -> Seq<char> {
    "value is not in range 0.."@ + decimal(cap)
}

impl<T: CapNum> CapError<T> {
    /// The message naming the valid range of `T`.
    pub fn to_string(&self) -> (r: String)
        ensures
            r@ == range_message(T::spec_cap()),
    {
        let mut s = String::new();
        push_text(&mut s, "value is not in range 0..");
        write_decimal(&mut s, T::cap());
        s
    }
}

/// The message of a wire error for the number `value` and the cap `cap`.
pub open spec fn wire_message(value: nat, cap: nat) -> Seq<char> {
    "number "@ + decimal(value) + " is greater than "@ + decimal(cap)
}

impl OutOfRange {
    /// The message naming the number that was read and the cap.
    pub fn to_string(&self) -> (r: String)
        ensures
            r@ == wire_message(self.value as nat, self.cap as nat),
    {
        let mut s = String::new();
        push_text(&mut s, "number ");
        write_decimal(&mut s, self.value);
        push_text(&mut s, " is greater than ");
        write_decimal(&mut s, self.cap);
        s
    }
}

} // verus!
