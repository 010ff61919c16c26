use schnorr_sig::modular::pow_mod;
use schnorr_sig::schnorr::{Global, Recipeint, Sender, Signatures};
use std::collections::hash_map::DefaultHasher;
use std::hash::Hasher;

fn digest(v: u64) -> u64 {
    let mut h = DefaultHasher::new();
    h.write(&v.to_le_bytes());
    h.finish()
}

fn big_group() -> Global {
    // p = 2q + 1 with both prime; 4 is a square, so it has order q.
    Global::new(2000000579, 1000000289, 4)
}

fn pow_by_steps(b: u64, e: u64, n: u64) -> u64 {
    let mut acc: u128 = 1 % n as u128;
    for _ in 0..e {
        acc = acc * b as u128 % n as u128;
    }
    acc as u64
}

#[test]
fn demo_scenario() {
    let global = Global::new(7, 3, 2);
    let gop = Sender::new(1, 2, 101010, global);
    assert_eq!(gop.get_message(), 101010);
    assert_eq!(gop.get_public_key(), 4);
    let sig = gop.calculate_signature();
    let e = sig.get_signature();
    assert_eq!(e, digest(101014));
    assert_eq!(sig.y, ((2 + e as u128) % 3) as u64);
    let boyd = Recipeint::new(gop.get_public_key(), gop.get_message(), sig, global);
    assert_eq!(boyd.get_signature(), e);
    assert!(boyd.verify());
}

#[test]
fn pow_mod_small_values() {
    assert_eq!(pow_mod(2, 5, 7), 4);
    assert_eq!(pow_mod(5, 2, 7), 4);
    assert_eq!(pow_mod(11, 9, 7), 1);
    assert_eq!(pow_mod(255, 255, 10), 5);
    assert_eq!(pow_mod(7, 1, 7), 0);
}

#[test]
fn pow_mod_matches_repeated_multiplication() {
    for &(b, n) in &[(3u64, 1000000007u64), (u64::MAX, 97), (12345, u64::MAX), (2, 2000000579)] {
        for e in 0..40u64 {
            assert_eq!(pow_mod(b, e, n), pow_by_steps(b, e, n));
        }
    }
}

#[test]
fn pow_mod_zero_exponent_and_unit_modulus() {
    assert_eq!(pow_mod(0, 0, 7), 1);
    assert_eq!(pow_mod(123456789, 0, 2), 1);
    assert_eq!(pow_mod(u64::MAX, 0, u64::MAX), 1);
    assert_eq!(pow_mod(5, 3, 1), 0);
    assert_eq!(pow_mod(5, 0, 1), 0);
}

#[test]
fn key_and_nonce_bounds() {
    let global = Global::new(7, 3, 2);
    assert!(Sender::try_new(0, 1, 5, global).is_none());
    assert!(Sender::try_new(3, 1, 5, global).is_none());
    assert!(Sender::try_new(1, 3, 5, global).is_none());
    assert!(Sender::try_new(1, 0, 5, global).is_some());
    assert!(Sender::try_new(2, 2, 5, global).is_some());
    assert!(Sender::try_new(1, 1, 5, Global::new(0, 3, 2)).is_none());
}

#[test]
fn masked_message_overflow_rejected() {
    let global = Global::new(7, 3, 2);
    // commitment 2 ^ 2 mod 7 = 4
    assert!(Sender::try_new(1, 2, u64::MAX, global).is_none());
    assert!(Sender::try_new(1, 2, u64::MAX - 4, global).is_some());
    assert!(Sender::try_new(1, 2, u64::MAX - 3, global).is_none());
    // commitment 2 ^ 0 mod 7 = 1
    assert!(Sender::try_new(1, 0, u64::MAX - 1, global).is_some());
}

#[test]
fn verifier_rejects_inadmissible_inputs() {
    let sig = Signatures { e: 1, y: 1 };
    assert!(Recipeint::try_new(2, 5, sig, Global::new(0, 3, 2)).is_none());
    // rebuilt commitment 2 * 2 mod 7 = 4
    assert!(Recipeint::try_new(2, u64::MAX, sig, Global::new(7, 3, 2)).is_none());
    assert!(Recipeint::try_new(2, u64::MAX - 4, sig, Global::new(7, 3, 2)).is_some());
}

#[test]
fn rebuilt_commitment_exact() {
    // 2 ^ 1 * 2 ^ 1 mod 7 = 4; masked message 10 + 4
    let sig = Signatures { e: 1, y: 1 };
    let v = Recipeint::new(2, 10, sig, Global::new(7, 3, 2));
    assert_eq!(v.get_signature(), digest(14));
    assert_eq!(v.verify(), digest(14) == 1);
}

#[test]
fn sign_with_given_challenge() {
    let global = big_group();
    let sender = Sender::new(17, 5, 42, global);
    let sig = sender.sign_with_challenge(u64::MAX);
    assert_eq!(sig.e, u64::MAX);
    assert_eq!(sig.y, ((5u128 + 17u128 * u64::MAX as u128) % 1000000289) as u64);
    let sig = sender.sign_with_challenge(0);
    assert_eq!(sig.y, 5);
}

#[test]
fn round_trip_on_larger_group() {
    let global = big_group();
    for &(s, r, m) in &[(1u64, 0u64, 0u64), (17, 5, 42), (1000000288, 1000000288, 999), (123456, 654321, u64::MAX - 2000000579)] {
        let sender = Sender::new(s, r, m, global);
        assert_eq!(sender.get_public_key(), pow_mod(4, 1000000289 - s, 2000000579));
        let sig = sender.calculate_signature();
        assert_eq!(sig.e, digest(m + pow_mod(4, r, 2000000579)));
        let v = Recipeint::new(sender.get_public_key(), sender.get_message(), sig, global);
        assert_eq!(v.get_signature(), sig.get_signature());
        assert!(v.verify());
    }
}

#[test]
fn signing_is_deterministic() {
    let global = big_group();
    let one = Sender::new(99, 7, 1234, global);
    let two = Sender::new(99, 7, 1234, global);
    assert_eq!(one.get_public_key(), two.get_public_key());
    assert_eq!(one.calculate_signature(), two.calculate_signature());
}

#[test]
fn tampering_is_detected() {
    let global = big_group();
    let sender = Sender::new(31337, 4242, 101010, global);
    let pk = sender.get_public_key();
    let m = sender.get_message();
    let sig = sender.calculate_signature();
    assert!(Recipeint::new(pk, m, sig, global).verify());
    for bit in 0..16 {
        let flip = 1u64 << bit;
        assert!(!Recipeint::new(pk, m ^ flip, sig, global).verify());
        assert!(!Recipeint::new(pk ^ flip, m, sig, global).verify());
        let e_flipped = Signatures { e: sig.e ^ flip, y: sig.y };
        assert!(!Recipeint::new(pk, m, e_flipped, global).verify());
        let y_flipped = Signatures { e: sig.e, y: sig.y ^ flip };
        assert!(!Recipeint::new(pk, m, y_flipped, global).verify());
    }
}
