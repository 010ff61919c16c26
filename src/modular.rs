//! Modular exponentiation.

use num_modular::ModularPow;
use vstd::arithmetic::div_mod::{lemma_mul_mod_noop_left, lemma_small_mod};
use vstd::arithmetic::power::{lemma_pow0, lemma_pow1, lemma_pow_adds, pow};
use vstd::prelude::*;

verus! {

/// Relies on num_modular's `ModularPow::powm` for `u64`: it returns
/// `(base ^ exp) % m`, and panics when `m` is zero.
#[verifier::external_body]
fn powm(base: u64, exp: u64, m: u64) -> (r: u64)
    requires
        m > 0,
    ensures
        r == pow(base as int, exp as nat) % (m as int),
{
    ModularPow::powm(base, exp, &m)
}

/// `base ^ exponent mod modulus`, by repeated squaring.
pub fn pow_mod(base: u64, exponent: u64, modulus: u64) -> (r: u64)
    requires
        modulus > 0,
    ensures
        r == pow(base as int, exponent as nat) % (modulus as int),
        r < modulus,
{
    powm(base, exponent, modulus)
}

/// `base ^ exponent mod modulus` by `exponent` multiplications, each reduced
/// modulo `modulus`.
pub open spec fn mul_mod_steps(base: int, exponent: nat, modulus: int) -> int
    decreases exponent,
{
    if exponent == 0 {
        1int % modulus
    } else {
        (mul_mod_steps(base, (exponent - 1) as nat, modulus) * base) % modulus
    }
}

/// `pow_mod` agrees with repeated multiplication modulo `modulus`.
pub proof fn lemma_pow_mod_by_steps(base: u64, exponent: u64, modulus: u64)
    requires
        modulus > 0,
    ensures
        pow(base as int, exponent as nat) % (modulus as int) == mul_mod_steps(
            base as int,
            exponent as nat,
            modulus as int,
        ),
    decreases exponent,
{
    let b = base as int;
    let m = modulus as int;
    if exponent == 0 {
        lemma_pow0(b);
    } else {
        let e1 = (exponent - 1) as u64;
        lemma_pow_mod_by_steps(base, e1, modulus);
        lemma_pow_adds(b, e1 as nat, 1);
        lemma_pow1(b);
        lemma_mul_mod_noop_left(pow(b, e1 as nat), b, m);
    }
}

/// Any base to the power zero is one, modulo any `modulus` above one.
pub proof fn lemma_pow_mod_zero_exponent(base: u64, modulus: u64)
    requires
        modulus > 1,
    ensures
        pow(base as int, 0) % (modulus as int) == 1,
{
    lemma_pow0(base as int);
    lemma_small_mod(1, modulus as nat);
}

} // verus!
