//! Fowler-Noll-Vo hashes.
//!
//! Both FNV-1 and FNV-1a are provided for `u32`, `u64` and `u128` states,
//! together with a streaming FNV-1a hasher over `u64` for use with hash maps
//! and sets.

mod fnv;
mod hasher;

pub use fnv::{fnv1, fnv1_from, fnv1a, fnv1a_from, lemma_fnv1a_concat, Fnv, FnvWidth};
pub use hasher::{
    lemma_chunks_match_one_shot, lemma_deterministic, lemma_write_split, written, Fnv1aBuildHasher,
    Fnv1aHashMap, Fnv1aHashSet, Fnv1aHasher,
};
