use crate::fnv::{fnv1a_from, lemma_fnv1a_concat, Fnv, FnvWidth};
use vstd::prelude::*;

verus! {

/// Streaming FNV-1a hasher over a `u64` state.
///
/// Bytes may be written in any number of chunks: the state after the writes
/// is the FNV-1a hash of their concatenation, started from the key.
#[derive(Clone, Copy, Debug)]
pub struct Fnv1aHasher(u64);

impl View for Fnv1aHasher {
    type V = u64;

    /// The current state of the hash.
    closed spec fn view(&self) -> u64 {
        self.0
    }
}

impl Fnv1aHasher {
    /// Creates an FNV-1a hasher whose state is the hash `key`.
    pub fn with_key(key: u64) -> (r: Fnv1aHasher)
        ensures
            r@ == key,
    {
        Fnv1aHasher(key)
    }
}

impl Default for Fnv1aHasher {
    /// Creates an FNV-1a hasher that starts from the `u64` offset basis.
    fn default() -> (r: Fnv1aHasher)
        ensures
            r@ == <u64 as FnvWidth>::spec_offset_basis(),
    {
        Self::with_key(u64::offset_basis())
    }
}

impl std::hash::Hasher for Fnv1aHasher {
    /// Returns the current state, leaving the hasher as it is.
    fn finish(&self) -> (r: u64)
        ensures
            r == self@,
    {
        self.0
    }

    /// Folds `bytes` into the state, in order, with FNV-1a.
    fn write(&mut self, bytes: &[u8])
        ensures
            final(self)@ == fnv1a_from(old(self)@, bytes@),
    {
        self.0 = self.0.fnv1a(bytes);
    }
}

/// The state of a hasher that started at `h` and was then given each of
/// `chunks` to `write`, in order.
pub open spec fn written(h: u64, chunks: Seq<Seq<u8>>) -> u64
    decreases chunks.len(),
{
    if chunks.len() == 0 {
        h
    } else {
        fnv1a_from(written(h, chunks.drop_last()), chunks.last())
    }
}

proof fn lemma_written_from(h: u64, chunks: Seq<Seq<u8>>)
    ensures
        written(h, chunks) == fnv1a_from(h, chunks.flatten_alt()),
    decreases chunks.len(),
{
    if chunks.len() == 0 {
        assert(chunks.flatten_alt() =~= Seq::<u8>::empty());
    } else {
        lemma_written_from(h, chunks.drop_last());
        lemma_fnv1a_concat(h, chunks.drop_last().flatten_alt(), chunks.last());
    }
}

/// Writing a byte sequence to a default hasher in ordered chunks, however it
/// is cut, leaves the one-shot 64-bit FNV-1a hash of the whole sequence.
pub proof fn lemma_chunks_match_one_shot(chunks: Seq<Seq<u8>>)
    ensures
        written(<u64 as FnvWidth>::spec_offset_basis(), chunks)
            == fnv1a_from(<u64 as FnvWidth>::spec_offset_basis(), chunks.flatten()),
{
    lemma_written_from(<u64 as FnvWidth>::spec_offset_basis(), chunks);
    chunks.lemma_flatten_and_flatten_alt_are_equivalent();
}

/// Writing `a` and then `b` leaves the same state as writing `a + b` at once.
pub proof fn lemma_write_split(h: Fnv1aHasher, a: Seq<u8>, b: Seq<u8>)
    ensures
        fnv1a_from(fnv1a_from(h@, a), b) == fnv1a_from(h@, a + b),
{
    lemma_fnv1a_concat(h@, a, b);
}

/// Two hashers in the same state that are given the same bytes end in the
/// same state.
pub proof fn lemma_deterministic(x: Fnv1aHasher, y: Fnv1aHasher, data: Seq<u8>)
    requires
        x@ == y@,
    ensures
        fnv1a_from(x@, data) == fnv1a_from(y@, data),
{
}

/// Builds default FNV-1a hashers, for hash maps and sets.
pub type Fnv1aBuildHasher = std::hash::BuildHasherDefault<Fnv1aHasher>;

/// A `HashMap` using a default FNV-1a hasher.
pub type Fnv1aHashMap<K, V> = std::collections::HashMap<K, V, Fnv1aBuildHasher>;

/// A `HashSet` using a default FNV-1a hasher.
pub type Fnv1aHashSet<T> = std::collections::HashSet<T, Fnv1aBuildHasher>;

} // verus!
