use vstd::prelude::*;

use crate::text::{
    byte_len, char_len, lemma_byte_len_empty, decimal, lemma_byte_len_concat, lemma_byte_len_prefix,
    lemma_byte_len_push, push_char, push_text, string_len, utf8_width, write_decimal,
};

verus! {

/// A `String` whose length in bytes is at most `N`.
#[derive(Debug, Hash, PartialEq, Eq)]
pub struct CapString<const N: usize>(String);

impl<const N: usize> View for CapString<N> {
    type V = Seq<char>;

    closed spec fn view(&self) -> Seq<char> {
        self.0@
    }
}

/// `len` as a `usize`, or `usize::MAX` where it does not fit.
pub open spec fn saturated(len: nat) -> usize {
    if len > usize::MAX {
        usize::MAX
    } else {
        len as usize
    }
}

/// `k` chars of `s` take exactly `new_len` bytes: cutting `s` at byte
/// `new_len` falls between two chars.
pub open spec fn is_boundary(s: Seq<char>, new_len: nat) -> bool {
    exists|k: int| 0 <= k <= s.len() && #[trigger] byte_len(s.take(k)) == new_len
}

impl<const N: usize> CapString<N> {
    #[verifier::type_invariant]
    spec fn within_cap(self) -> bool {
        byte_len(self.0@) <= N
    }

    /// The held string.
    pub closed spec fn inner(self) -> String {
        self.0
    }

    /// The value holding `s`.
    pub closed spec fn spec_from(s: String) -> Self {
        CapString(s)
    }

    /// A capped string written out as its text reads back as itself.
    pub proof fn lemma_round_trip(self)
        requires
            byte_len(self@) <= N,
        ensures
            <Self as vstd::std_specs::convert::TryFromSpec<String>>::try_from_spec(self.inner())
                == Ok::<Self, CapStringLengthError<N>>(self),
    {
    }

    /// Returns the inner `String`.
    pub fn into_inner(self) -> (r: String)
        ensures
            r == self.inner(),
            r@ == self@,
            byte_len(r@) <= N,
    {
        proof {
            use_type_invariant(&self);
        }
        self.0
    }

    /// The whole string as a slice.
    pub fn as_str(&self) -> (r: &str)
        ensures
            r@ == self@,
    {
        self.0.as_str()
    }

    /// The length in bytes, never above `N`.
    pub fn len(&self) -> (r: usize)
        ensures
            r == byte_len(self@),
            r <= N,
    {
        proof {
            use_type_invariant(self);
        }
        string_len(&self.0)
    }

    /// A copy of the string.
    pub fn to_string(&self) -> (r: String)
        ensures
            r@ == self@,
    {
        self.0.clone()
    }

    /// Removes all contents.
    pub fn clear(&mut self)
        ensures
            final(self)@ == Seq::<char>::empty(),
    {
        let mut s = String::new();
        core::mem::swap(&mut s, &mut self.0);
        clear_string(&mut s);
        proof {
            lemma_byte_len_empty();
        }
        self.0 = s;
    }

    /// Removes the last char and returns it, or `None` when empty.
    pub fn pop(&mut self) -> (r: Option<char>)
        ensures
            old(self)@.len() == 0 ==> r is None && final(self)@ == old(self)@,
            old(self)@.len() > 0 ==> r == Some(old(self)@.last()) && final(self)@
                == old(self)@.drop_last(),
    {
        proof {
            use_type_invariant(&*self);
        }
        let mut s = String::new();
        core::mem::swap(&mut s, &mut self.0);
        let ghost before = s@;
        let r = pop_string(&mut s);
        proof {
            if before.len() > 0 {
                lemma_byte_len_prefix(before, before.len() - 1);
                assert(before.take(before.len() - 1) =~= before.drop_last());
            }
        }
        self.0 = s;
        r
    }

    /// Appends `ch` if the result stays within `N` bytes; otherwise leaves the
    /// string as it is and reports the length it would have had (saturated at
    /// `usize::MAX`).
    pub fn push(&mut self, ch: char) -> (r: Result<(), CapStringLengthError<N>>)
        ensures
            byte_len(old(self)@) + char_len(ch) <= N ==> r is Ok && final(self)@ == old(self)@.push(ch),
            byte_len(old(self)@) + char_len(ch) > N ==> r == Err::<(), _>(
                CapStringLengthError::<N>(saturated(byte_len(old(self)@) + char_len(ch))),
            ) && final(self)@ == old(self)@,
    {
        proof {
            use_type_invariant(&*self);
        }
        let cur = string_len(&self.0);
        let width = utf8_width(ch);
        if width <= N - cur {
            let mut s = String::new();
            core::mem::swap(&mut s, &mut self.0);
            reserve_exact(&mut s, width);
            push_char(&mut s, ch);
            proof {
                lemma_byte_len_push(old(self)@, ch);
            }
            self.0 = s;
            Ok(())
        } else {
            Err(CapStringLengthError(cur.saturating_add(width)))
        }
    }

    /// Appends `string` if the result stays within `N` bytes; otherwise
    /// leaves the string as it is and reports the length it would have had
    /// (saturated at `usize::MAX`).
    pub fn push_str(&mut self, string: &str) -> (r: Result<(), CapStringLengthError<N>>)
        ensures
            byte_len(old(self)@) + byte_len(string@) <= N ==> r is Ok && final(self)@ == old(self)@ + string@,
            byte_len(old(self)@) + byte_len(string@) > N ==> r == Err::<(), _>(
                CapStringLengthError::<N>(saturated(byte_len(old(self)@) + byte_len(string@))),
            ) && final(self)@ == old(self)@,
    {
        proof {
            use_type_invariant(&*self);
        }
        let cur = string_len(&self.0);
        let added = string.as_bytes().len();
        if added <= N - cur {
            let mut s = String::new();
            core::mem::swap(&mut s, &mut self.0);
            push_text(&mut s, string);
            proof {
                lemma_byte_len_concat(old(self)@, string@);
            }
            self.0 = s;
            Ok(())
        } else {
            Err(CapStringLengthError(cur.saturating_add(added)))
        }
    }

    /// Shortens the string to `new_len` bytes; does nothing when `new_len` is
    /// not below the current length.
    pub fn truncate(&mut self, new_len: usize)
        requires
            new_len >= byte_len(old(self)@) || is_boundary(old(self)@, new_len as nat),
        ensures
            new_len >= byte_len(old(self)@) ==> final(self)@ == old(self)@,
            new_len < byte_len(old(self)@) ==> byte_len(final(self)@) == new_len && final(self)@ == old(self)@.take(final(self)@.len() as int),
    {
        proof {
            use_type_invariant(&*self);
        }
        let mut s = String::new();
        core::mem::swap(&mut s, &mut self.0);
        truncate_string(&mut s, new_len);
        self.0 = s;
    }
}

/// Relies on `String::clear`: the string becomes empty.
#[verifier::external_body]
fn clear_string(s: &mut String)
    ensures
        final(s)@ == Seq::<char>::empty(),
{
    s.clear()
}

/// Relies on `String::pop`: removes and returns the last char.
#[verifier::external_body]
fn pop_string(s: &mut String) -> (r: Option<char>)
    ensures
        old(s)@.len() == 0 ==> r is None && final(s)@ == old(s)@,
        old(s)@.len() > 0 ==> r == Some(old(s)@.last()) && final(s)@ == old(s)@.drop_last(),
{
    s.pop()
}

/// Relies on `String::truncate`: keeps the first `new_len` bytes, which it
/// needs to end on a char boundary.
#[verifier::external_body]
fn truncate_string(s: &mut String, new_len: usize)
    requires
        new_len >= byte_len(old(s)@) || is_boundary(old(s)@, new_len as nat),
    ensures
        new_len >= byte_len(old(s)@) ==> final(s)@ == old(s)@,
        new_len < byte_len(old(s)@) ==> byte_len(final(s)@) == new_len && final(s)@ == old(s)@.take(final(s)@.len() as int),
{
    s.truncate(new_len)
}

/// Relies on `String::reserve_exact`: only the capacity changes, not the
/// contents.
#[verifier::external_body]
fn reserve_exact(s: &mut String, additional: usize)
    ensures
        final(s)@ == old(s)@,
{
    s.reserve_exact(additional)
}

/// Error returned when a string would be longer than `N` bytes; holds the
/// length it would have had.
#[derive(Debug, Clone, Copy, PartialEq, Eq)]
pub struct CapStringLengthError<const N: usize>(pub usize);

/// The message of a string length error.
pub open spec fn string_length_message(len: nat, cap: nat) -> Seq<char> {
    "cap string length error, length "@ + decimal(len) + " must be in range 0..="@ + decimal(cap)
}

impl<const N: usize> CapStringLengthError<N> {
    /// The message naming the length and the cap.
    pub fn to_string(&self) -> (r: String)
        ensures
            r@ == string_length_message(self.0 as nat, N as nat),
    {
        let mut s = String::new();
        push_text(&mut s, "cap string length error, length ");
        write_decimal(&mut s, self.0 as u64);
        push_text(&mut s, " must be in range 0..=");
        write_decimal(&mut s, N as u64);
        s
    }
}

impl<const N: usize> TryFrom<String> for CapString<N> {
    type Error = CapStringLengthError<N>;

    fn try_from(value: String) -> (r: Result<Self, CapStringLengthError<N>>)
        ensures
            r is Ok <==> byte_len(value@) <= N,
            r matches Ok(x) ==> x@ == value@,
            r matches Err(e) ==> e.0 == byte_len(value@),
    {
        let len = string_len(&value);
        if len <= N {
            Ok(CapString(value))
        } else {
            Err(CapStringLengthError(len))
        }
    }
}

impl<const N: usize> vstd::std_specs::convert::TryFromSpecImpl<String> for CapString<N> {
    open spec fn obeys_try_from_spec() -> bool {
        true
    }

    open spec fn try_from_spec(value: String) -> Result<Self, CapStringLengthError<N>> {
        if byte_len(value@) <= N {
            Ok(Self::spec_from(value))
        } else {
            Err(CapStringLengthError(byte_len(value@) as usize))
        }
    }
}

impl<const N: usize> From<CapString<N>> for String {
    fn from(value: CapString<N>) -> (r: String) {
        value.0
    }
}

impl<const N: usize> vstd::std_specs::convert::FromSpecImpl<CapString<N>> for String {
    open spec fn obeys_from_spec() -> bool {
        true
    }

    open spec fn from_spec(value: CapString<N>) -> String {
        value.inner()
    }
}

impl<const N: usize> Default for CapString<N> {
    fn default() -> (r: Self)
        ensures
            r@ == Seq::<char>::empty(),
    {
        proof {
            lemma_byte_len_empty();
        }
        CapString(String::new())
    }
}

impl<const N: usize> Clone for CapString<N> {
    fn clone(&self) -> (r: Self)
        ensures
            r@ == self@,
    {
        proof {
            use_type_invariant(self);
        }
        CapString(self.0.clone())
    }
}

impl<const N: usize> AsRef<str> for CapString<N> {
    fn as_ref(&self) -> (r: &str)
        ensures
            r@ == self@,
    {
        self.0.as_str()
    }
}

} // verus!
