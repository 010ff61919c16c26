//! The signer and the verifier of the Schnorr protocol.

use crate::hash::{hash_message, hash_of};
use crate::modular::pow_mod;
use vstd::arithmetic::div_mod::{
    lemma_fundamental_div_mod, lemma_mod_twice, lemma_mul_mod_noop, lemma_small_mod,
};
use vstd::arithmetic::power::{
    lemma1_pow, lemma_pow_adds, lemma_pow_mod_noop, lemma_pow_multiplies, pow,
};
use vstd::prelude::*;

verus! {

/// The group: a prime modulus `p`, the order `q` of the subgroup, which
/// divides `p - 1`, and a generator `a` of that subgroup.
#[derive(Clone, Copy, Debug, PartialEq, Eq, Structural)]
pub struct Global {
    pub p: u64,
    pub q: u64,
    pub a: u64,
}

impl Global {
    pub fn new(p: u64, q: u64, a: u64) -> (r: Global)
        ensures
            r == (Global { p, q, a }),
    {
        Global { p, q, a }
    }

    /// What the protocol needs of the group: `a ^ q == 1 (mod p)`, with
    /// `p > 1`. Primality of `p` and the exact order of `a` are not needed.
    pub open spec fn wf(self) -> bool {
        &&& self.p > 1
        &&& pow(self.a as int, self.q as nat) % (self.p as int) == 1
    }

    /// A private key lies in `[1, q)`.
    pub open spec fn key_in_range(self, s: u64) -> bool {
        0 < s < self.q
    }

    /// A nonce lies in `[0, q)`.
    pub open spec fn nonce_in_range(self, r: u64) -> bool {
        r < self.q
    }
}

/// The commitment `a ^ r mod p` for nonce `r`.
pub open spec fn commitment_of(g: Global, r: u64) -> int {
    pow(g.a as int, r as nat) % (g.p as int)
}

/// The public key `a ^ (q - s) mod p` for private key `s`: the inverse of
/// `a ^ s` in a subgroup of order `q`.
pub open spec fn public_key_of(g: Global, s: u64) -> int {
    pow(g.a as int, (g.q - s) as nat) % (g.p as int)
}

/// The response `(r + s * e) mod q` to challenge `e`.
pub open spec fn response_of(g: Global, s: u64, r: u64, e: u64) -> int {
    (r + s * e) % (g.q as int)
}

/// The commitment that the verifier rebuilds: `a ^ y * pk ^ e mod p`.
pub open spec fn reconstruct(g: Global, pk: u64, e: u64, y: u64) -> int {
    (pow(g.a as int, y as nat) % (g.p as int)) * (pow(pk as int, e as nat) % (g.p as int)) % (
    g.p as int)
}

/// An honest response, with the matching public key, rebuilds the
/// commitment, whatever the challenge.
pub proof fn lemma_reconstruct_commitment(g: Global, s: u64, r: u64, e: u64)
    requires
        g.wf(),
        g.key_in_range(s),
        g.nonce_in_range(r),
    ensures
        reconstruct(g, public_key_of(g, s) as u64, e, response_of(g, s, r, e) as u64)
            == commitment_of(g, r),
{
    let a = g.a as int;
    let p = g.p as int;
    let q = g.q as int;
    let t = r + s * e;
    let y = t % q;
    let k = t / q;
    lemma_fundamental_div_mod(t, q);
    assert(0 <= s * e <= q * e) by (nonlinear_arith)
        requires 0 < s < q, e >= 0;
    assert(k <= e) by (nonlinear_arith)
        requires t == q * k + y, 0 <= y, t < q + q * e, q > 0;
    assert(k >= 0) by (nonlinear_arith)
        requires t == q * k + y, y < q, t >= 0, q > 0;
    let j: nat = (e - k) as nat;
    let pk = pow(a, (q - s) as nat) % p;
    assert(0 <= pk < p);
    assert(pk as u64 == pk);
    assert(0 <= y < q);
    assert(y as u64 == y);
    let ay = pow(a, y as nat);
    let b = pow(a, ((q - s) * e) as nat);
    // pk ^ e == a ^ ((q - s) * e)  (mod p)
    lemma_pow_mod_noop(pow(a, (q - s) as nat), e as nat, p);
    lemma_pow_multiplies(a, (q - s) as nat, e as nat);
    assert(pow(pk, e as nat) % p == b % p);
    // a ^ y * a ^ ((q - s) * e) == a ^ (r + q * j)
    assert(y + (q - s) * e == r + q * j) by (nonlinear_arith)
        requires t == r + s * e, t == q * k + y, j == e - k;
    lemma_mul_mod_noop(ay, b, p);
    lemma_pow_adds(a, y as nat, ((q - s) * e) as nat);
    assert(reconstruct(g, pk as u64, e, y as u64) == pow(a, (r + q * j) as nat) % p);
    // a ^ (q * j) == 1  (mod p)
    let c = pow(pow(a, q as nat), j);
    lemma_pow_adds(a, r as nat, (q * j) as nat);
    lemma_pow_multiplies(a, q as nat, j);
    lemma_pow_mod_noop(pow(a, q as nat), j, p);
    lemma1_pow(j);
    assert(pow(a, q as nat) % p == 1);
    assert(pow(pow(a, q as nat) % p, j) == 1);
    lemma_small_mod(1, p as nat);
    assert(c % p == 1);
    lemma_mul_mod_noop(pow(a, r as nat), c, p);
    lemma_mod_twice(pow(a, r as nat), p);
    assert(pow(a, (r + q * j) as nat) % p == pow(a, r as nat) % p);
}

/// A signature: the challenge `e` and the response `y`.
#[derive(Clone, Copy, Debug, PartialEq, Eq, Structural)]
pub struct Signatures {
    pub e: u64,
    pub y: u64,
}

impl Signatures {
    /// The challenge.
    pub fn get_signature(&self) -> (r: u64)
        ensures
            r == self.e,
    {
        self.e
    }
}

/// What a signer holds.
pub struct SenderView {
    pub public_key: u64,
    pub private_key: u64,
    pub nonce: u64,
    pub commitment: u64,
    pub message: u64,
    pub masked_message: u64,
    pub global: Global,
}

impl SenderView {
    /// The signature: `e` is the hash of the masked message, `y` the response
    /// to it.
    pub open spec fn signature(self) -> Signatures {
        let e = hash_of(self.masked_message);
        Signatures { e, y: response_of(self.global, self.private_key, self.nonce, e) as u64 }
    }
}

/// The signer built from private key `s`, nonce `r` and `message`: its
/// commitment is `a ^ r mod p`, and its masked message `message` plus the
/// commitment, not reduced.
pub open spec fn signer_state(s: u64, r: u64, message: u64, global: Global) -> SenderView {
    SenderView {
        public_key: public_key_of(global, s) as u64,
        private_key: s,
        nonce: r,
        commitment: commitment_of(global, r) as u64,
        message,
        masked_message: (message + commitment_of(global, r)) as u64,
        global,
    }
}

/// What `Sender::new` asks of its inputs: a modulus above zero, a private key
/// in `[1, q)`, a nonce in `[0, q)`, and a masked message that fits in 64 bits.
pub open spec fn signer_admits(s: u64, r: u64, message: u64, global: Global) -> bool {
    &&& global.p > 0
    &&& global.key_in_range(s)
    &&& global.nonce_in_range(r)
    &&& message + commitment_of(global, r) <= u64::MAX
}

/// The signer. It keeps its private key and nonce to itself.
pub struct Sender {
    public_key: u64,
    private_key: u64,
    r: u64,
    x: u64,
    message: u64,
    c_message: u64,
    global: Global,
}

impl View for Sender {
    type V = SenderView;

    closed spec fn view(&self) -> SenderView {
        SenderView {
            public_key: self.public_key,
            private_key: self.private_key,
            nonce: self.r,
            commitment: self.x,
            message: self.message,
            masked_message: self.c_message,
            global: self.global,
        }
    }
}

impl Sender {
    #[verifier::type_invariant]
    spec fn inv(self) -> bool {
        &&& signer_admits(self.private_key, self.r, self.message, self.global)
        &&& self@ == signer_state(self.private_key, self.r, self.message, self.global)
    }

    /// A signer with private key `s` and nonce `r` for `message`.
    pub fn new(s: u64, r: u64, message: u64, global: Global) -> (sender: Sender)
        requires
            signer_admits(s, r, message, global),
        ensures
            sender@ == signer_state(s, r, message, global),
    {
        let x = pow_mod(global.a, r, global.p);
        let c_mesg = message + x;
        let pub_key = pow_mod(global.a, global.q - s, global.p);
        Sender {
            public_key: pub_key,
            private_key: s,
            r,
            x,
            message,
            c_message: c_mesg,
            global,
        }
    }

    /// `Sender::new` where its inputs are admissible, else `None`.
    pub fn try_new(s: u64, r: u64, message: u64, global: Global) -> (res: Option<Sender>)
        ensures
            res.is_some() <==> signer_admits(s, r, message, global),
            res matches Some(sender) ==> sender@ == signer_state(s, r, message, global),
    {
        if global.p == 0 || s == 0 || s >= global.q || r >= global.q {
            return None;
        }
        let x = pow_mod(global.a, r, global.p);
        if message > u64::MAX - x {
            return None;
        }
        Some(Sender::new(s, r, message, global))
    }

    /// The signature for challenge `e`: `y = (r + s * e) mod q`.
    pub fn sign_with_challenge(&self, e: u64) -> (sig: Signatures)
        ensures
            sig.e == e,
            sig.y == response_of(self@.global, self@.private_key, self@.nonce, e),
    {
        proof {
            use_type_invariant(self);
        }
        let q = self.global.q as u128;
        let s = self.private_key as u128;
        let ee = e as u128;
        assert(s * ee <= 0xffff_ffff_ffff_fffe_0000_0000_0000_0001u128) by (nonlinear_arith)
            requires
                s <= 0xffff_ffff_ffff_ffffu128,
                ee <= 0xffff_ffff_ffff_ffffu128,
        ;
        let t = self.r as u128 + s * ee;
        let y = (t % q) as u64;
        Signatures { e, y }
    }

    /// The signature: the challenge is the hash of the masked message.
    pub fn calculate_signature(&self) -> (sig: Signatures)
        ensures
            sig == self@.signature(),
    {
        let e = hash_message(self.c_message);
        self.sign_with_challenge(e)
    }

    pub fn get_public_key(&self) -> (r: u64)
        ensures
            r == self@.public_key,
    {
        self.public_key
    }

    pub fn get_message(&self) -> (r: u64)
        ensures
            r == self@.message,
    {
        self.message
    }

    pub fn get_global(&self) -> (r: Global)
        ensures
            r == self@.global,
    {
        self.global
    }
}

/// What a verifier holds.
pub struct RecipientView {
    pub sender_pub_key: u64,
    pub sender_message: u64,
    pub sender_sig: Signatures,
    pub x_prime: u64,
    pub masked_message: u64,
    pub global: Global,
}

impl RecipientView {
    /// The verification rule: the declared challenge is the hash of the
    /// rebuilt masked message.
    pub open spec fn accepts(self) -> bool {
        self.sender_sig.e == hash_of(self.masked_message)
    }
}

/// The verifier built from a public key, a message and a signature: it
/// rebuilds the commitment as `a ^ y * pk ^ e mod p`, and the masked message
/// as the message plus that commitment, not reduced.
pub open spec fn verifier_state(pk: u64, message: u64, sig: Signatures, global: Global) -> RecipientView {
    RecipientView {
        sender_pub_key: pk,
        sender_message: message,
        sender_sig: sig,
        x_prime: reconstruct(global, pk, sig.e, sig.y) as u64,
        masked_message: (message + reconstruct(global, pk, sig.e, sig.y)) as u64,
        global,
    }
}

/// What `Recipeint::new` asks of its inputs: a modulus above zero, and a
/// rebuilt masked message that fits in 64 bits.
pub open spec fn verifier_admits(pk: u64, message: u64, sig: Signatures, global: Global) -> bool {
    &&& global.p > 0
    &&& message + reconstruct(global, pk, sig.e, sig.y) <= u64::MAX
}

/// The verifier of one signature.
pub struct Recipeint {
    sender_pub_key: u64,
    x_prime: u64,
    sender_message: u64,
    sender_sig: Signatures,
    c_message: u64,
    global: Global,
}

impl View for Recipeint {
    type V = RecipientView;

    closed spec fn view(&self) -> RecipientView {
        RecipientView {
            sender_pub_key: self.sender_pub_key,
            sender_message: self.sender_message,
            sender_sig: self.sender_sig,
            x_prime: self.x_prime,
            masked_message: self.c_message,
            global: self.global,
        }
    }
}

/// The commitment rebuilt from a public key and a signature.
fn rebuild_commitment(pk: u64, sig: Signatures, global: Global) -> (x: u64)
    requires
        global.p > 0,
    ensures
        x == reconstruct(global, pk, sig.e, sig.y),
{
    let p = global.p as u128;
    let u = pow_mod(global.a, sig.y, global.p) as u128;
    let v = pow_mod(pk, sig.e, global.p) as u128;
    assert(u * v < 0x1_0000_0000_0000_0000u128 * 0x1_0000_0000_0000_0000u128)
        by (nonlinear_arith)
        requires
            u < 0x1_0000_0000_0000_0000u128,
            v < 0x1_0000_0000_0000_0000u128,
    ;
    ((u * v) % p) as u64
}

impl Recipeint {
    #[verifier::type_invariant]
    spec fn inv(self) -> bool {
        &&& verifier_admits(self.sender_pub_key, self.sender_message, self.sender_sig, self.global)
        &&& self@ == verifier_state(
            self.sender_pub_key,
            self.sender_message,
            self.sender_sig,
            self.global,
        )
    }

    /// A verifier for `sender_sig` on `sender_message` under `sender_pub_key`.
    pub fn new(sender_pub_key: u64, sender_message: u64, sender_sig: Signatures, global: Global) -> (v:
        Recipeint)
        requires
            verifier_admits(sender_pub_key, sender_message, sender_sig, global),
        ensures
            v@ == verifier_state(sender_pub_key, sender_message, sender_sig, global),
    {
        let x_prime = rebuild_commitment(sender_pub_key, sender_sig, global);
        let c_message = sender_message + x_prime;
        Recipeint { sender_pub_key, sender_message, x_prime, sender_sig, c_message, global }
    }

    /// `Recipeint::new` where its inputs are admissible, else `None`.
    pub fn try_new(
        sender_pub_key: u64,
        sender_message: u64,
        sender_sig: Signatures,
        global: Global,
    ) -> (res: Option<Recipeint>)
        ensures
            res.is_some() <==> verifier_admits(sender_pub_key, sender_message, sender_sig, global),
            res matches Some(v) ==> v@ == verifier_state(
                sender_pub_key,
                sender_message,
                sender_sig,
                global,
            ),
    {
        if global.p == 0 {
            return None;
        }
        let x_prime = rebuild_commitment(sender_pub_key, sender_sig, global);
        if sender_message > u64::MAX - x_prime {
            return None;
        }
        Some(Recipeint::new(sender_pub_key, sender_message, sender_sig, global))
    }

    /// The verifier's challenge: the hash of the rebuilt masked message.
    pub fn get_signature(&self) -> (r: u64)
        ensures
            r == hash_of(self@.masked_message),
    {
        hash_message(self.c_message)
    }

    /// Whether the signature's challenge matches the verifier's.
    pub fn verify(&self) -> (r: bool)
        ensures
            r == self@.accepts(),
    {
        self.sender_sig.e == self.get_signature()
    }
}

/// Signing and then verifying with the signer's public key, message and
/// signature rebuilds the signer's commitment and masked message, so the
/// verifier accepts.
pub proof fn lemma_round_trip(global: Global, s: u64, r: u64, message: u64)
    requires
        global.wf(),
        signer_admits(s, r, message, global),
    ensures
        ({
            let sender = signer_state(s, r, message, global);
            let sig = sender.signature();
            let recipient = verifier_state(sender.public_key, sender.message, sig, global);
            &&& verifier_admits(sender.public_key, sender.message, sig, global)
            &&& recipient.x_prime == sender.commitment
            &&& recipient.masked_message == sender.masked_message
            &&& recipient.accepts()
        }),
{
    let sender = signer_state(s, r, message, global);
    let e = hash_of(sender.masked_message);
    lemma_reconstruct_commitment(global, s, r, e);
    assert(0 <= public_key_of(global, s) < global.p);
    assert(0 <= response_of(global, s, r, e) < global.q);
    assert(0 <= commitment_of(global, r) < global.p);
}

/// Two signers built from the same inputs have the same public key and give
/// the same signature.
pub proof fn lemma_signing_deterministic(
    one: Sender,
    two: Sender,
    s: u64,
    r: u64,
    message: u64,
    global: Global,
)
    requires
        one@ == signer_state(s, r, message, global),
        two@ == signer_state(s, r, message, global),
    ensures
        one@.public_key == two@.public_key,
        one@.signature() == two@.signature(),
{
}

/// A verifier given another message, with the same public key and signature,
/// hashes another masked message. That the two digests then differ rests on
/// the hash alone.
pub proof fn lemma_tampered_message_changes_hash_input(
    pk: u64,
    message: u64,
    tampered: u64,
    sig: Signatures,
    global: Global,
)
    requires
        message != tampered,
        verifier_admits(pk, message, sig, global),
        verifier_admits(pk, tampered, sig, global),
    ensures
        verifier_state(pk, message, sig, global).masked_message != verifier_state(
            pk,
            tampered,
            sig,
            global,
        ).masked_message,
{
    assert(0 <= reconstruct(global, pk, sig.e, sig.y));
}

} // verus!
