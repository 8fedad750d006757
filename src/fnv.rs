use vstd::prelude::*;

verus! {

/// The parameters and the single-byte steps of FNV for one width of state.
pub trait FnvWidth: Sized + Copy {
    /// The FNV prime of this width.
    const PRIME: Self;
    /// The FNV offset basis of this width.
    const OFFSET_BASIS: Self;

    /// The offset basis, as seen from specifications.
    spec fn spec_offset_basis() -> Self;

    /// One FNV-1 step: multiply by the prime modulo the width, then xor in
    /// the zero-extended byte.
    spec fn spec_fnv1_step(h: Self, byte: u8) -> Self;

    /// One FNV-1a step: xor in the zero-extended byte, then multiply by the
    /// prime modulo the width.
    spec fn spec_fnv1a_step(h: Self, byte: u8) -> Self;

    /// Returns the offset basis.
    fn offset_basis() -> (r: Self)
        ensures
            r == Self::spec_offset_basis(),
    ;

    /// Applies one FNV-1 step.
    fn fnv1_step(self, byte: u8) -> (r: Self)
        ensures
            r == Self::spec_fnv1_step(self, byte),
    ;

    /// Applies one FNV-1a step.
    fn fnv1a_step(self, byte: u8) -> (r: Self)
        ensures
            r == Self::spec_fnv1a_step(self, byte),
    ;
}

/// Fowler-Noll-Vo hashes over a fixed-width unsigned state.
///
/// FNV is neither a cryptographic hash nor resistant to hash flooding.
pub trait Fnv: FnvWidth {
    /// Computes the FNV-1 hash (multiply before xor) of `data`, starting from
    /// the state `self`.
    fn fnv1(self, data: &[u8]) -> (r: Self)
        ensures
            r == fnv1_from(self, data@),
    {
        let mut h = self;
        let mut i: usize = 0;
        while i < data.len()
            invariant
                0 <= i <= data@.len(),
                h == fnv1_from(self, data@.take(i as int)),
            decreases data@.len() - i,
        {
            assert(data@.take(i + 1).drop_last() =~= data@.take(i as int));
            h = h.fnv1_step(data[i]);
            i += 1;
        }
        assert(data@.take(i as int) =~= data@);
        h
    }

    /// Computes the FNV-1a hash (xor before multiply) of `data`, starting from
    /// the state `self`.
    fn fnv1a(self, data: &[u8]) -> (r: Self)
        ensures
            r == fnv1a_from(self, data@),
    {
        let mut h = self;
        let mut i: usize = 0;
        while i < data.len()
            invariant
                0 <= i <= data@.len(),
                h == fnv1a_from(self, data@.take(i as int)),
            decreases data@.len() - i,
        {
            assert(data@.take(i + 1).drop_last() =~= data@.take(i as int));
            h = h.fnv1a_step(data[i]);
            i += 1;
        }
        assert(data@.take(i as int) =~= data@);
        h
    }
}

/// FNV-1 over `data`, starting from the state `h`: the steps are applied to
/// the bytes in order.
pub open spec fn fnv1_from<T: FnvWidth>(h: T, data: Seq<u8>) -> T
    decreases data.len(),
{
    if data.len() == 0 {
        h
    } else {
        T::spec_fnv1_step(fnv1_from(h, data.drop_last()), data.last())
    }
}

/// FNV-1a over `data`, starting from the state `h`: the steps are applied to
/// the bytes in order.
pub open spec fn fnv1a_from<T: FnvWidth>(h: T, data: Seq<u8>) -> T
    decreases data.len(),
{
    if data.len() == 0 {
        h
    } else {
        T::spec_fnv1a_step(fnv1a_from(h, data.drop_last()), data.last())
    }
}

/// FNV-1a of a concatenation is FNV-1a of the second part, started from the
/// state that the first part leaves.
pub proof fn lemma_fnv1a_concat<T: FnvWidth>(h: T, a: Seq<u8>, b: Seq<u8>)
    ensures
        fnv1a_from(h, a + b) == fnv1a_from(fnv1a_from(h, a), b),
    decreases b.len(),
{
    if b.len() == 0 {
        assert(a + b =~= a);
    } else {
        assert((a + b).drop_last() =~= a + b.drop_last());
        lemma_fnv1a_concat(h, a, b.drop_last());
    }
}

impl Fnv for u32 {
}

impl FnvWidth for u32 {
    const PRIME: u32 = 0x01000193;
    const OFFSET_BASIS: u32 = 0x811c9dc5;

    open spec fn spec_offset_basis() -> u32 {
        0x811c9dc5
    }

    open spec fn spec_fnv1_step(h: u32, byte: u8) -> u32 {
        ((h as nat * 0x01000193nat) % 0x1_0000_0000nat) as u32 ^ (byte as u32)
    }

    open spec fn spec_fnv1a_step(h: u32, byte: u8) -> u32 {
        (((h ^ (byte as u32)) as nat * 0x01000193nat) % 0x1_0000_0000nat) as u32
    }

    fn offset_basis() -> (r: u32) {
        Self::OFFSET_BASIS
    }

    fn fnv1_step(self, byte: u8) -> (r: u32) {
        self.wrapping_mul(Self::PRIME) ^ (byte as u32)
    }

    fn fnv1a_step(self, byte: u8) -> (r: u32) {
        (self ^ (byte as u32)).wrapping_mul(Self::PRIME)
    }
}

impl Fnv for u64 {
}

impl FnvWidth for u64 {
    const PRIME: u64 = 0x00000100000001B3;
    const OFFSET_BASIS: u64 = 0xcbf29ce484222325;

    open spec fn spec_offset_basis() -> u64 {
        0xcbf29ce484222325
    }

    open spec fn spec_fnv1_step(h: u64, byte: u8) -> u64 {
        ((h as nat * 0x00000100000001B3nat) % 0x1_0000_0000_0000_0000nat) as u64 ^ (byte as u64)
    }

    open spec fn spec_fnv1a_step(h: u64, byte: u8) -> u64 {
        (((h ^ (byte as u64)) as nat * 0x00000100000001B3nat) % 0x1_0000_0000_0000_0000nat) as u64
    }

    fn offset_basis() -> (r: u64) {
        Self::OFFSET_BASIS
    }

    fn fnv1_step(self, byte: u8) -> (r: u64) {
        self.wrapping_mul(Self::PRIME) ^ (byte as u64)
    }

    fn fnv1a_step(self, byte: u8) -> (r: u64) {
        (self ^ (byte as u64)).wrapping_mul(Self::PRIME)
    }
}

impl Fnv for u128 {
}

impl FnvWidth for u128 {
    const PRIME: u128 = 0x0000000001000000000000000000013B;
    const OFFSET_BASIS: u128 = 0x6c62272e07bb014262b821756295c58d;

    open spec fn spec_offset_basis() -> u128 {
        0x6c62272e07bb014262b821756295c58d
    }

    open spec fn spec_fnv1_step(h: u128, byte: u8) -> u128 {
        ((h as nat * 0x0000000001000000000000000000013Bnat) % 0x1_0000_0000_0000_0000_0000_0000_0000_0000nat) as u128
            ^ (byte as u128)
    }

    open spec fn spec_fnv1a_step(h: u128, byte: u8) -> u128 {
        (((h ^ (byte as u128)) as nat * 0x0000000001000000000000000000013Bnat)
            % 0x1_0000_0000_0000_0000_0000_0000_0000_0000nat) as u128
    }

    fn offset_basis() -> (r: u128) {
        Self::OFFSET_BASIS
    }

    fn fnv1_step(self, byte: u8) -> (r: u128) {
        self.wrapping_mul(Self::PRIME) ^ (byte as u128)
    }

    fn fnv1a_step(self, byte: u8) -> (r: u128) {
        (self ^ (byte as u128)).wrapping_mul(Self::PRIME)
    }
}

/// Computes the FNV-1 hash of `data` from the default offset basis.
pub fn fnv1<T: Fnv>(data: &[u8]) -> (r: T)
    ensures
        r == fnv1_from(T::spec_offset_basis(), data@),
{
    T::offset_basis().fnv1(data)
}

/// Computes the FNV-1a hash of `data` from the default offset basis.
pub fn fnv1a<T: Fnv>(data: &[u8]) -> (r: T)
    ensures
        r == fnv1a_from(T::spec_offset_basis(), data@),
{
    T::offset_basis().fnv1a(data)
}

} // verus!
