//! Schnorr identification and signatures over a multiplicative subgroup of the
//! integers modulo a prime.

pub mod hash;
pub mod modular;
pub mod schnorr;
