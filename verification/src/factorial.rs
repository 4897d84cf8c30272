use vstd::prelude::*;

verus! {

/// Mathematical factorial.
pub open spec fn factorial(n: int) -> int
    decreases n,
{
    if n <= 1 {
        1
    } else {
        n * factorial(n - 1)
    }
}

/// The largest input whose factorial is representable in an `i32`.
pub const MAX_FACTORIAL_INPUT: i32 = 12;

proof fn lemma_factorial_at_least_one(n: int)
    ensures
        factorial(n) >= 1,
    decreases n,
{
    if n > 1 {
        lemma_factorial_at_least_one(n - 1);
        assert(n * factorial(n - 1) >= n * 1) by (nonlinear_arith)
            requires
                n >= 2,
                factorial(n - 1) >= 1,
        ;
    }
}

proof fn lemma_factorial_monotonic(a: int, b: int)
    requires
        0 <= a <= b,
    ensures
        factorial(a) <= factorial(b),
    decreases b - a,
{
    if a < b {
        lemma_factorial_monotonic(a, b - 1);
        lemma_factorial_at_least_one(b - 1);
        assert(b * factorial(b - 1) >= 1 * factorial(b - 1)) by (nonlinear_arith)
            requires
                b >= 1,
                factorial(b - 1) >= 1,
        ;
    }
}

proof fn lemma_factorial_fits_i32(n: int)
    requires
        0 <= n <= MAX_FACTORIAL_INPUT,
    ensures
        factorial(n) <= 479_001_600,
{
    lemma_factorial_monotonic(n, 12);
    reveal_with_fuel(factorial, 13);
    assert(factorial(12) == 479_001_600);
}

/// A pure arithmetic demo contract: computes a factorial and remembers the
/// most recent result.
pub struct Factorial {
    value: i32,
}

impl Factorial {
    /// The most recently stored factorial result, zero initially.
    pub closed spec fn spec_value(&self) -> i32 {
        self.value
    }

    pub fn new() -> (f: Factorial)
        ensures
            f.spec_value() == 0,
    {
        Factorial { value: 0 }
    }

    /// Computes `number!` exactly. Inputs of two or more also store the
    /// result; the base cases leave the stored value alone. Inputs are
    /// limited to those whose factorial an `i32` can represent.
    pub fn calculate_factorial(&mut self, number: i32) -> (result: i32)
        requires
            0 <= number <= MAX_FACTORIAL_INPUT,
        ensures
            result == factorial(number as int),
            number >= 2 ==> final(self).spec_value() == result,
            number < 2 ==> final(self).spec_value() == old(self).spec_value(),
    {
        if number == 0 || number == 1 {
            return 1;
        }
        let mut result: i32 = 1;
        let mut i: i32 = 2;
        while i <= number
            invariant
                2 <= i <= number + 1,
                number <= MAX_FACTORIAL_INPUT,
                result == factorial(i - 1),
            decreases number + 1 - i,
        {
            proof {
                lemma_factorial_fits_i32(i as int);
                lemma_factorial_at_least_one(i as int);
                assert(factorial(i as int) == i * factorial(i - 1));
                assert(result * i == i * result) by (nonlinear_arith);
                assert(result * i == factorial(i as int));
            }
            result = result * i;
            i = i + 1;
        }
        self.value = result;
        result
    }

    /// Returns the most recently stored factorial result.
    pub fn get_value(&self) -> (v: i32)
        ensures
            v == self.spec_value(),
    {
        self.value
    }
}

} // verus!
