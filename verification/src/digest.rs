//! The hash oracle: a deterministic digest over header-shaped values.
//!
//! A digest is computed by feeding the value's words (or bytes) to
//! `std`'s `DefaultHasher`, which is deterministic across instances.
//! At the specification level the digest is `DefaultHasher::spec_finish`
//! applied to the sequence of writes, so two values receive the same
//! digest exactly when they feed the hasher the same bytes.

use vstd::prelude::*;
use vstd::bytes::{spec_u64_to_le_bytes, u64_to_le_bytes};
use vstd::std_specs::hash::DefaultHasherAdditionalSpecFns;
use std::collections::hash_map::DefaultHasher;
use std::hash::Hasher;

verus! {

/// The digest of a sequence of words: each word is written to the hasher
/// as its little-endian bytes, in order.
pub open spec fn words_digest(words: Seq<u64>) -> u64 {
    DefaultHasher::spec_finish(words.map_values(|w: u64| spec_u64_to_le_bytes(w)))
}

/// The digest of a flat byte string, written to the hasher in one piece.
pub open spec fn bytes_digest(bytes: Seq<u8>) -> u64 {
    DefaultHasher::spec_finish(seq![bytes])
}

/// Digest of five words, used for the five fields of a header.
pub fn digest_words(a: u64, b: u64, c: u64, d: u64, e: u64) -> (r: u64)
    ensures
        r == words_digest(seq![a, b, c, d, e]),
{
    let mut hasher = DefaultHasher::new();
    let ba = u64_to_le_bytes(a);
    hasher.write(ba.as_slice());
    let bb = u64_to_le_bytes(b);
    hasher.write(bb.as_slice());
    let bc = u64_to_le_bytes(c);
    hasher.write(bc.as_slice());
    let bd = u64_to_le_bytes(d);
    hasher.write(bd.as_slice());
    let be = u64_to_le_bytes(e);
    hasher.write(be.as_slice());
    proof {
        let words = seq![a, b, c, d, e];
        assert(hasher@ =~= words.map_values(|w: u64| spec_u64_to_le_bytes(w)));
    }
    hasher.finish()
}

/// Digest of a byte string.
pub fn digest_bytes(bytes: &Vec<u8>) -> (r: u64)
    ensures
        r == bytes_digest(bytes@),
{
    let mut hasher = DefaultHasher::new();
    hasher.write(bytes.as_slice());
    proof {
        assert(hasher@ =~= seq![bytes@]);
    }
    hasher.finish()
}

} // verus!
