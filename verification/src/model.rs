//! The mathematical meaning of the factorial, and of its value in a machine word.
use vstd::prelude::*;

verus! {

/// The number of values of a 64-bit word: results are kept modulo this.
pub open spec fn word_modulus() -> nat {
    0x1_0000_0000_0000_0000
}

/// `n!`: the product of the positive integers up to `n`, the empty product being 1.
pub open spec fn factorial_nat(n: nat) -> nat
    decreases n,
{
    if n == 0 {
        1
    } else {
        n * factorial_nat((n - 1) as nat)
    }
}

/// `n!` reduced modulo 2^64: what 64-bit multiplication that discards the
/// carry out of the word leaves of the product.
pub open spec fn wrapped_factorial(n: u64) -> u64 {
    (factorial_nat(n as nat) % word_modulus()) as u64
}

} // verus!
