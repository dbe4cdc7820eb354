//! What holds of the factorial and of its value in a machine word.
use vstd::prelude::*;

use crate::model::{factorial_nat, word_modulus, wrapped_factorial};

verus! {

/// `0!` and `1!` are both 1, in the integers and in the machine word.
pub proof fn lemma_factorial_base(n: nat)
    requires
        n <= 1,
    ensures
        factorial_nat(n) == 1,
        wrapped_factorial(n as u64) == 1,
{
    reveal_with_fuel(factorial_nat, 2);
}

/// From 2 on, `n!` is `n` times `(n - 1)!`.
pub proof fn lemma_factorial_step(n: nat)
    requires
        n >= 2,
    ensures
        factorial_nat(n) == n * factorial_nat((n - 1) as nat),
{
}

/// No factorial is zero.
pub proof fn lemma_factorial_positive(n: nat)
    ensures
        factorial_nat(n) >= 1,
    decreases n,
{
    if n > 0 {
        lemma_factorial_positive((n - 1) as nat);
        vstd::arithmetic::mul::lemma_mul_strictly_positive(
            n as int,
            factorial_nat((n - 1) as nat) as int,
        );
    }
}

/// The factorial never decreases as its argument grows.
pub proof fn lemma_factorial_monotonic(m: nat, n: nat)
    requires
        m <= n,
    ensures
        factorial_nat(m) <= factorial_nat(n),
    decreases n,
{
    if m < n {
        let below = (n - 1) as nat;
        lemma_factorial_monotonic(m, below);
        lemma_factorial_positive(below);
        assert(factorial_nat(below) <= n * factorial_nat(below)) by (nonlinear_arith)
            requires
                n >= 1,
        ;
    }
}

/// The value in the machine word obeys the recurrence for every `n` from 2 on,
/// with the multiplication taken modulo 2^64.
pub proof fn lemma_wrapped_step(n: u64)
    requires
        n >= 2,
    ensures
        wrapped_factorial(n) == (n * wrapped_factorial((n - 1) as u64)) % (word_modulus() as int),
{
    vstd::arithmetic::div_mod::lemma_mul_mod_noop_right(
        n as int,
        factorial_nat((n - 1) as nat) as int,
        word_modulus() as int,
    );
}

/// Where `n!` fits in a `u64`, the value in the machine word is `n!` itself.
pub proof fn lemma_wrapped_exact(n: u64)
    requires
        factorial_nat(n as nat) <= u64::MAX,
    ensures
        wrapped_factorial(n) == factorial_nat(n as nat),
{
    vstd::arithmetic::div_mod::lemma_small_mod(factorial_nat(n as nat), word_modulus());
}

/// From 2 on, and where `n!` fits in a `u64`, the value in the machine word is
/// `n` times the value for `n - 1`, with no reduction.
pub proof fn lemma_wrapped_step_exact(n: u64)
    requires
        n >= 2,
        factorial_nat(n as nat) <= u64::MAX,
    ensures
        wrapped_factorial(n) == n * wrapped_factorial((n - 1) as u64),
{
    lemma_factorial_monotonic((n - 1) as nat, n as nat);
    lemma_wrapped_exact(n);
    lemma_wrapped_exact((n - 1) as u64);
}

/// `n!` fits in a `u64` exactly when `n` is at most 20.
pub proof fn lemma_fits_in_word(n: nat)
    ensures
        factorial_nat(n) <= u64::MAX <==> n <= 20,
{
    assert(factorial_nat(20) == 2432902008176640000 && factorial_nat(21)
        == 51090942171709440000) by {
        reveal_with_fuel(factorial_nat, 22);
    }
    if n <= 20 {
        lemma_factorial_monotonic(n, 20);
    } else {
        lemma_factorial_monotonic(21, n);
    }
}

/// The contract of `factorial` leaves one result for each argument: two
/// values that both meet it for the same `n` are the same value.
pub proof fn lemma_result_determined(n: u64, first: u64, second: u64)
    requires
        first == wrapped_factorial(n),
        second == wrapped_factorial(n),
    ensures
        first == second,
{
}

} // verus!
