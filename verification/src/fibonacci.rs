//! Fibonacci numbers.

use vstd::prelude::*;

verus! {

/// The Fibonacci numbers: 0, 1, 1, 2, 3, 5, 8, ... Each one from the third
/// on is the sum of the two before it.
pub open spec fn fib(n: nat) -> nat
    decreases n,
{
    if n < 2 {
        n
    } else {
        fib((n - 1) as nat) + fib((n - 2) as nat)
    }
}

/// The largest index whose Fibonacci number fits into an `i128`.
pub const LARGEST_INDEX: i128 = 184;

/// The Fibonacci numbers never decrease.
pub proof fn lemma_fib_monotonic(m: nat, n: nat)
    requires
        m <= n,
    ensures
        fib(m) <= fib(n),
    decreases n,
{
    if m < n {
        lemma_fib_monotonic(m, (n - 1) as nat);
    }
}

/// The addition formula: `fib(m + n + 1)` is
/// `fib(m + 1) * fib(n + 1) + fib(m) * fib(n)`.
pub proof fn lemma_fib_addition(m: nat, n: nat)
    ensures
        fib(m + n + 1) == fib(m + 1) * fib(n + 1) + fib(m) * fib(n),
    decreases n,
{
    if n == 0 {
        assert(fib(m + 1) * 1 + fib(m) * 0 == fib(m + 1)) by (nonlinear_arith);
    } else if n == 1 {
        assert(fib(2) == 1) by {
            reveal_with_fuel(fib, 3);
        }
        assert(fib(m + 1) * 1 + fib(m) * 1 == fib(m + 1) + fib(m)) by (nonlinear_arith);
    } else {
        lemma_fib_addition(m, (n - 1) as nat);
        lemma_fib_addition(m, (n - 2) as nat);
        let a: nat = fib(m + 1);
        let b: nat = fib(m);
        let p: nat = fib(n);
        let q: nat = fib((n - 1) as nat);
        let r: nat = fib((n - 2) as nat);
        assert(a * (p + q) + b * (q + r) == (a * p + b * q) + (a * q + b * r))
            by (nonlinear_arith);
    }
}

/// The last Fibonacci number that fits into an `i128`.
pub proof fn lemma_largest_fib()
    ensures
        fib(184) == 127127879743834334146972278486287885163,
        fib(184) <= i128::MAX,
{
    assert(fib(11) == 89 && fib(12) == 144) by {
        reveal_with_fuel(fib, 13);
    }
    lemma_doubling(11, 89, 144);
    lemma_doubling(23, 28657, 46368);
    lemma_doubling(46, 1836311903, 2971215073);
    lemma_fib_addition(91, 92);
    let a: int = 7540113804746346429;
    let b: int = 12200160415121876738;
    assert(a * b + (b - a) * a == 127127879743834334146972278486287885163) by (nonlinear_arith)
        requires
            a == 7540113804746346429,
            b == 12200160415121876738,
    ;
}

/// From two neighbours `fib(k)` and `fib(k + 1)` to the two neighbours
/// `fib(2k)` and `fib(2k + 1)`.
proof fn lemma_doubling(k: nat, a: int, b: int)
    requires
        k >= 1,
        fib(k) == a,
        fib(k + 1) == b,
    ensures
        fib(2 * k) == a * b + (b - a) * a,
        fib(2 * k + 1) == b * b + a * a,
{
    lemma_fib_addition((k - 1) as nat, k);
    lemma_fib_addition(k, k);
}

/// The Fibonacci number of index `number`; a negative `number` is handed
/// back unchanged.
pub fn fibonacci(number: i128) -> (value: i128)
    requires
        number <= LARGEST_INDEX,
    ensures
        number < 0 ==> value == number,
        number >= 0 ==> value == fib(number as nat),
{
    if number < 2 {
        return number;
    }
    let mut i: i128 = 0;
    let mut f: i128 = 0;
    let mut l: i128 = 1;
    while i < number
        invariant
            0 <= i <= number <= LARGEST_INDEX,
            f == fib(i as nat),
            i > 0 ==> l == fib((i - 1) as nat),
            i == 0 ==> l == 1,
        decreases number - i,
    {
        i += 1;
        proof {
            lemma_largest_fib();
            lemma_fib_monotonic(i as nat, 184);
        }
        f = f + l;
        l = f - l;
    }
    f
}

} // verus!
