//! What every capped number shares: the range contract, and the modular
//! arithmetic that all widths reduce to.
use vstd::prelude::*;

verus! {

/// A type holding one unsigned primitive whose valid values are `0..N`.
pub trait CapNum: Sized {
    /// The primitive that is held.
    type Inner;

    /// The cap `N`: every held value is below it.
    spec fn spec_cap() -> nat;

    /// A primitive value as a mathematical integer.
    spec fn inner_int(v: Self::Inner) -> int;

    /// The valid range, `0..N`.
    fn range() -> (r: core::ops::Range<Self::Inner>)
        ensures
            Self::inner_int(r.start) == 0,
            Self::inner_int(r.end) == Self::spec_cap(),
    ;

    /// The cap `N`, widened to `u64`.
    fn cap() -> (r: u64)
        ensures
            r == Self::spec_cap(),
    ;
}

/// `value mod n`, the value that wrapping construction holds.
pub fn wrap(value: u64, n: u64) -> (r: u64)
    requires
        n > 0,
    ensures
        r == value % n,
        r < n,
{
    value % n
}

/// `(v + rhs) mod n` for `v < n`, computed without leaving `u64`.
pub fn add_mod(v: u64, rhs: u64, n: u64) -> (r: u64)
    requires
        n > 0,
        v < n,
    ensures
        r == (v + rhs) % (n as int),
        r < n,
{
    let m = rhs % n;
    proof {
        lemma_add_mod(v as int, rhs as int, n as int);
    }
    if v >= n - m {
        v - (n - m)
    } else {
        v + m
    }
}

/// Adding `rhs` modulo `n` to `v < n` is adding `rhs % n` and taking away
/// `n` once if the sum reached it.
proof fn lemma_add_mod(v: int, rhs: int, n: int)
    requires
        n > 0,
        0 <= v < n,
        rhs >= 0,
    ensures
        (v + rhs) % n == if v + rhs % n >= n { v + rhs % n - n } else { v + rhs % n },
{
    let m = rhs % n;
    let q = rhs / n;
    assert(rhs == q * n + m && 0 <= m < n) by (nonlinear_arith)
        requires n > 0, rhs >= 0, m == rhs % n, q == rhs / n;
    if v + m >= n {
        assert((v + rhs) % n == v + m - n) by (nonlinear_arith)
            requires rhs == q * n + m, 0 <= v + m - n < n, n > 0;
    } else {
        assert((v + rhs) % n == v + m) by (nonlinear_arith)
            requires rhs == q * n + m, 0 <= v + m < n, n > 0;
    }
}

/// Adding `rhs % n` in place of `rhs` does not change a sum modulo `n`.
pub proof fn lemma_add_reduced(v: int, rhs: int, n: int)
    requires
        n > 0,
        v >= 0,
        rhs >= 0,
    ensures
        (v + rhs % n) % n == (v + rhs) % n,
{
    vstd::arithmetic::div_mod::lemma_add_mod_noop_right(v, rhs, n);
}

/// Stepping a counter in `0..n` by one moves it to the next value, and from
/// `n - 1` back to `0`.
pub proof fn lemma_increment_cycles(v: int, n: int)
    requires
        0 <= v < n,
    ensures
        (v + 1) % n == if v + 1 == n { 0 } else { v + 1 },
{
    if v + 1 == n {
        vstd::arithmetic::div_mod::lemma_mod_self_0(n);
    } else {
        vstd::arithmetic::div_mod::lemma_small_mod((v + 1) as nat, n as nat);
    }
}

/// Where a counter in `0..n` stands after `k` steps of one, each step going
/// from `n - 1` back to `0`.
pub open spec fn after_steps(v: int, k: nat, n: int) -> int
    decreases k,
{
    if k == 0 {
        v
    } else {
        let w = after_steps(v, (k - 1) as nat, n);
        if w + 1 == n {
            0
        } else {
            w + 1
        }
    }
}

/// `k` steps from `v` land on `(v + k) mod n`: the counter visits `0..n` in
/// turn and comes back to `v` after `n` steps.
pub proof fn lemma_after_steps(v: int, k: nat, n: int)
    requires
        0 <= v < n,
    ensures
        after_steps(v, k, n) == (v + k) % n,
    decreases k,
{
    if k == 0 {
        vstd::arithmetic::div_mod::lemma_small_mod(v as nat, n as nat);
    } else {
        lemma_after_steps(v, (k - 1) as nat, n);
        let w = (v + k - 1) % n;
        vstd::arithmetic::div_mod::lemma_mod_bound(v + k - 1, n);
        lemma_increment_cycles(w, n);
        vstd::arithmetic::div_mod::lemma_add_mod_noop(v + k - 1, 1, n);
        if n == 1 {
            vstd::arithmetic::div_mod::lemma_mod_self_0(1);
        } else {
            vstd::arithmetic::div_mod::lemma_small_mod(1, n as nat);
        }
    }
}

} // verus!
