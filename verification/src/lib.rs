//! Factorials of 64-bit unsigned integers.
//!
//! [`factorial`] multiplies in the machine word and lets the product wrap:
//! its result is `n!` modulo 2^64, which is `n!` itself up to `n = 20`.
use vstd::prelude::*;

pub mod laws;
pub mod model;

use crate::laws::{
    lemma_factorial_base,
    lemma_fits_in_word,
    lemma_wrapped_exact,
    lemma_wrapped_step,
};
use crate::model::{factorial_nat, wrapped_factorial};

verus! {

/// Computes `n!` in 64-bit wrapping arithmetic.
///
/// Defined for every `n`. While `n!` fits in a `u64` (that is, for `n <= 20`)
/// the result is exact; beyond that it is `n!` modulo 2^64.
pub fn factorial(n: u64) -> (result: u64)
    ensures
        result == wrapped_factorial(n),
        factorial_nat(n as nat) <= u64::MAX ==> result == factorial_nat(n as nat),
        n <= 20 ==> result == factorial_nat(n as nat),
{
    if n <= 1 {
        proof {
            lemma_factorial_base(n as nat);
        }
        return 1;
    }
    let mut product: u64 = 1;
    let mut i: u64 = 1;
    proof {
        lemma_factorial_base(1);
    }
    while i < n
        invariant
            1 <= i <= n,
            product == wrapped_factorial(i),
        decreases n - i,
    {
        i = i + 1;
        proof {
            lemma_wrapped_step(i);
        }
        product = i.wrapping_mul(product);
    }
    proof {
        lemma_fits_in_word(n as nat);
        if factorial_nat(n as nat) <= u64::MAX {
            lemma_wrapped_exact(n);
        }
    }
    product
}

} // verus!
