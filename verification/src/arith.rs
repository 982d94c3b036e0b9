//! Integer arithmetic: addition and the recursive factorial.

use vstd::prelude::*;

verus! {

/// Mathematical factorial.
pub open spec fn spec_factorial(n: nat) -> nat
    decreases n,
{
    if n == 0 {
        1
    } else {
        n * spec_factorial((n - 1) as nat)
    }
}

/// Adds two numbers; the caller guarantees the sum stays in range.
pub fn add_numbers(x: i32, y: i32) -> (r: i32)
    requires
        i32::MIN <= x + y <= i32::MAX,
    ensures
        r == x + y,
{
    x + y
}

/// The factorial never shrinks as its argument grows.
proof fn lemma_factorial_monotonic(a: nat, b: nat)
    requires
        a <= b,
    ensures
        spec_factorial(a) <= spec_factorial(b),
    decreases b,
{
    if a < b {
        lemma_factorial_monotonic(a, (b - 1) as nat);
        assert(spec_factorial(b) == b * spec_factorial((b - 1) as nat));
        assert(b * spec_factorial((b - 1) as nat) >= 1 * spec_factorial((b - 1) as nat))
            by (nonlinear_arith)
            requires b >= 1;
    }
}

/// The largest factorial that fits in a `u64`.
proof fn lemma_factorial_20()
    ensures
        spec_factorial(20) == 2432902008176640000,
{
    reveal_with_fuel(spec_factorial, 21);
}

/// Calculates factorial recursively.
pub fn factorial(n: u64) -> (r: u64)
    requires
        n <= 20,
    ensures
        r == spec_factorial(n as nat),
    decreases n,
{
    if n == 0 {
        1
    } else {
        let rec = factorial(n - 1);
        proof {
            lemma_factorial_monotonic(n as nat, 20);
            lemma_factorial_20();
        }
        n * rec
    }
}

} // verus!
