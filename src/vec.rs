use vstd::prelude::*;

use crate::text::{decimal, push_text, write_decimal};

verus! {

/// The most elements that reading a sequence reserves room for up front,
/// whatever its size hint says.
pub const PREALLOC_CEILING: usize = 1024;

/// A `Vec` whose length is at most `N`.
#[derive(Debug, Hash, PartialEq, Eq)]
pub struct CapVec<const N: usize, T>(Vec<T>);

impl<const N: usize, T> View for CapVec<N, T> {
    type V = Seq<T>;

    closed spec fn view(&self) -> Seq<T> {
        self.0@
    }
}

impl<const N: usize, T> CapVec<N, T> {
    #[verifier::type_invariant]
    spec fn within_cap(self) -> bool {
        self.0@.len() <= N
    }

    /// The held vector.
    pub closed spec fn inner(self) -> Vec<T> {
        self.0
    }

    /// The value holding `v`.
    pub closed spec fn spec_from(v: Vec<T>) -> Self {
        CapVec(v)
    }

    /// An empty vector with room for `capacity` elements.
    pub fn with_capacity(capacity: usize) -> (r: Self)
        ensures
            r@ == Seq::<T>::empty(),
    {
        CapVec(Vec::with_capacity(capacity))
    }

    /// The room to reserve before reading a sequence whose source announced
    /// `hint` elements: the hint, or `N` without one, and never more than `N`
    /// or the ceiling.
    pub fn initial_capacity(hint: Option<usize>) -> (r: usize)
        ensures
            r <= N,
            r <= PREALLOC_CEILING,
            hint matches Some(h) ==> r == vstd::math::min(
                vstd::math::min(h as int, N as int),
                PREALLOC_CEILING as int,
            ),
            hint is None ==> r == vstd::math::min(N as int, PREALLOC_CEILING as int),
    {
        let wanted = match hint {
            Some(h) => if h < N { h } else { N },
            None => N,
        };
        if wanted < PREALLOC_CEILING {
            wanted
        } else {
            PREALLOC_CEILING
        }
    }

    /// The number of elements, never above `N`.
    pub fn len(&self) -> (r: usize)
        ensures
            r == self@.len(),
            r <= N,
    {
        proof {
            use_type_invariant(self);
        }
        self.0.len()
    }

    /// Whether there are no elements.
    pub fn is_empty(&self) -> (r: bool)
        ensures
            r == (self@.len() == 0),
    {
        self.0.is_empty()
    }

    /// Appends `element` and returns `None` if there is room; otherwise hands
    /// `element` back unchanged and leaves the vector as it is.
    pub fn push(&mut self, element: T) -> (r: Option<T>)
        ensures
            old(self)@.len() < N ==> r is None && final(self)@ == old(self)@.push(element),
            old(self)@.len() >= N ==> r == Some(element) && final(self)@ == old(self)@,
    {
        proof {
            use_type_invariant(&*self);
        }
        if self.0.len() < N {
            let mut v = Vec::new();
            core::mem::swap(&mut v, &mut self.0);
            reserve_exact(&mut v, 1);
            v.push(element);
            self.0 = v;
            None
        } else {
            Some(element)
        }
    }

    /// Removes the last element and returns it, or `None` when empty.
    pub fn pop(&mut self) -> (r: Option<T>)
        ensures
            old(self)@.len() == 0 ==> r is None && final(self)@ == old(self)@,
            old(self)@.len() > 0 ==> r == Some(old(self)@.last()) && final(self)@
                == old(self)@.drop_last(),
    {
        proof {
            use_type_invariant(&*self);
        }
        let mut v = Vec::new();
        core::mem::swap(&mut v, &mut self.0);
        let r = v.pop();
        self.0 = v;
        r
    }

    /// Removes all elements.
    pub fn clear(&mut self)
        ensures
            final(self)@ == Seq::<T>::empty(),
    {
        let mut v = Vec::new();
        core::mem::swap(&mut v, &mut self.0);
        v.clear();
        self.0 = v;
    }

    /// Keeps the first `len` elements; does nothing when `len` is not below
    /// the current length.
    pub fn truncate(&mut self, len: usize)
        ensures
            len < old(self)@.len() ==> final(self)@ == old(self)@.take(len as int),
            len >= old(self)@.len() ==> final(self)@ == old(self)@,
    {
        proof {
            use_type_invariant(&*self);
        }
        let mut v = Vec::new();
        core::mem::swap(&mut v, &mut self.0);
        v.truncate(len);
        self.0 = v;
    }

    /// A capped vector written out as its elements reads back as itself.
    pub proof fn lemma_round_trip(self)
        requires
            self@.len() <= N,
        ensures
            <Self as vstd::std_specs::convert::TryFromSpec<Vec<T>>>::try_from_spec(self.inner())
                == Ok::<Self, CapVecLengthError<N>>(self),
    {
    }

    /// Get the underlying `Vec`.
    pub fn into_inner(self) -> (r: Vec<T>)
        ensures
            r == self.inner(),
            r@ == self@,
            r@.len() <= N,
    {
        proof {
            use_type_invariant(&self);
        }
        self.0
    }
}

/// Relies on `Vec::reserve_exact`: only the capacity changes, not the
/// elements.
#[verifier::external_body]
fn reserve_exact<T>(v: &mut Vec<T>, additional: usize)
    ensures
        final(v)@ == old(v)@,
{
    v.reserve_exact(additional)
}

impl<const N: usize, T> AsRef<Vec<T>> for CapVec<N, T> {
    fn as_ref(&self) -> (r: &Vec<T>)
        ensures
            r@ == self@,
    {
        &self.0
    }
}

impl<const N: usize, T> Default for CapVec<N, T> {
    fn default() -> (r: Self)
        ensures
            r@ == Seq::<T>::empty(),
    {
        CapVec(Vec::new())
    }
}

impl<const N: usize, T: Clone> Clone for CapVec<N, T> {
    fn clone(&self) -> (r: Self)
        ensures
            r@.len() == self@.len(),
            forall|i: int| 0 <= i < self@.len() ==> cloned::<T>(#[trigger] self@[i], r@[i]),
    {
        proof {
            use_type_invariant(self);
        }
        CapVec(self.0.clone())
    }
}

/// Error returned when a vector would be longer than `N`; holds its length.
#[derive(Debug, Clone, Copy, PartialEq, Eq)]
pub struct CapVecLengthError<const N: usize>(pub usize);

/// The message of a vector length error.
pub open spec fn vec_length_message(len: nat, cap: nat) -> Seq<char> {
    "cap vec length error, vec of length "@ + decimal(len) + " is longer than "@ + decimal(cap)
}

impl<const N: usize> CapVecLengthError<N> {
    /// The message naming the length and the cap.
    pub fn to_string(&self) -> (r: String)
        ensures
            r@ == vec_length_message(self.0 as nat, N as nat),
    {
        let mut s = String::new();
        push_text(&mut s, "cap vec length error, vec of length ");
        write_decimal(&mut s, self.0 as u64);
        push_text(&mut s, " is longer than ");
        write_decimal(&mut s, N as u64);
        s
    }
}

impl<const N: usize, T> From<CapVec<N, T>> for Vec<T> {
    fn from(value: CapVec<N, T>) -> (r: Vec<T>) {
        value.0
    }
}

impl<const N: usize, T> vstd::std_specs::convert::FromSpecImpl<CapVec<N, T>> for Vec<T> {
    open spec fn obeys_from_spec() -> bool {
        true
    }

    open spec fn from_spec(value: CapVec<N, T>) -> Vec<T> {
        value.inner()
    }
}

impl<const N: usize, T> TryFrom<Vec<T>> for CapVec<N, T> {
    type Error = CapVecLengthError<N>;

    fn try_from(value: Vec<T>) -> (r: Result<Self, CapVecLengthError<N>>)
        ensures
            r is Ok <==> value@.len() <= N,
            r matches Ok(x) ==> x@ == value@,
            r matches Err(e) ==> e.0 == value@.len(),
    {
        let len = value.len();
        if len <= N {
            Ok(CapVec(value))
        } else {
            Err(CapVecLengthError(len))
        }
    }
}

impl<const N: usize, T> vstd::std_specs::convert::TryFromSpecImpl<Vec<T>> for CapVec<N, T> {
    open spec fn obeys_try_from_spec() -> bool {
        true
    }

    open spec fn try_from_spec(value: Vec<T>) -> Result<Self, CapVecLengthError<N>> {
        if value@.len() <= N {
            Ok(Self::spec_from(value))
        } else {
            Err(CapVecLengthError(value@.len() as usize))
        }
    }
}

} // verus!
