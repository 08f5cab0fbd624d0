use vstd::prelude::*;

verus! {

/// Whether `root` is the square root of `n` with its decimal places cut off.
pub open spec fn is_floor_sqrt(n: nat, root: nat) -> bool {
    root * root <= n < (root + 1) * (root + 1)
}

/// The square root of `n` with its decimal places cut off.
pub open spec fn floor_sqrt(n: nat) -> nat {
    choose|root: nat| is_floor_sqrt(n, root)
}

/// Every natural number has a cut-off square root.
pub proof fn lemma_floor_sqrt_exists(n: nat)
    ensures
        is_floor_sqrt(n, floor_sqrt(n)),
    decreases n,
{
    if n == 0 {
        assert(is_floor_sqrt(0, 0)) by (nonlinear_arith);
    } else {
        lemma_floor_sqrt_exists((n - 1) as nat);
        let below = floor_sqrt((n - 1) as nat);
        if n < (below + 1) * (below + 1) {
            assert(is_floor_sqrt(n, below));
        } else {
            assert((below + 2) * (below + 2) > (below + 1) * (below + 1)) by (nonlinear_arith);
            assert(is_floor_sqrt(n, below + 1));
        }
    }
}

/// A number has one cut-off square root only.
pub proof fn lemma_floor_sqrt_unique(n: nat, root: nat)
    requires
        is_floor_sqrt(n, root),
    ensures
        floor_sqrt(n) == root,
{
    let other = floor_sqrt(n);
    assert(is_floor_sqrt(n, other));
    assert(other == root) by (nonlinear_arith)
        requires
            root * root <= n < (root + 1) * (root + 1),
            other * other <= n < (other + 1) * (other + 1),
    {
        if other < root {
            assert((other + 1) * (other + 1) <= root * root);
        } else if root < other {
            assert((root + 1) * (root + 1) <= other * other);
        }
    }
}

/// The cut-off square root of a number up to a hundred million.
pub(crate) fn floor_sqrt_small(n: u64) -> (root: u64)
    requires
        n <= 100_000_000,
    ensures
        root == floor_sqrt(n as nat),
        root <= 10_000,
{
    let mut low: u64 = 0;
    let mut high: u64 = 10_001;
    while high - low > 1
        invariant
            low < high <= 10_001,
            low * low <= n < high * high,
            n <= 100_000_000,
        decreases high - low,
    {
        let mid: u64 = low + (high - low) / 2;
        assert(mid * mid <= 10_001 * 10_001) by (nonlinear_arith)
            requires
                mid <= 10_001,
        ;
        if mid * mid <= n {
            low = mid;
        } else {
            high = mid;
        }
    }
    proof {
        lemma_floor_sqrt_unique(n as nat, low as nat);
    }
    low
}

} // verus!
