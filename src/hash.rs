//! The challenge hash.

use std::collections::hash_map::DefaultHasher;
use std::hash::Hasher;
use vstd::prelude::*;

verus! {

/// The 64-bit digest of `v` under SipHash-1-3 with zero keys.
pub uninterp spec fn hash_of(v: u64) -> u64;

/// Relies on std's `DefaultHasher::new`, a SipHash-1-3 hasher with fixed zero
/// keys: the digest of the eight little-endian bytes of `v` depends on `v`
/// alone.
#[verifier::external_body]
pub(crate) fn hash_message(v: u64) -> (r: u64)
    ensures
        r == hash_of(v),
{
    let mut s = DefaultHasher::new();
    s.write(&v.to_le_bytes());
    s.finish()
}

} // verus!
