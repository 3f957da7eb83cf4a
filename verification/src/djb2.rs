//! Implementation of the [djb2](http://www.cse.yorku.ca/~oz/hash.html) hash.
use vstd::prelude::*;

verus! {

/// The seed recommended for djb2.
pub open spec fn djb2_seed() -> u64 {
    5381
}

/// One step of djb2: multiply by 33 (wrapping) and xor the next byte in.
pub open spec fn djb2_step(state: u64, byte: u8) -> u64 {
    vstd::wrapping::u64_specs::wrapping_mul(state, 33) ^ (byte as u64)
}

/// The state reached from `state` after feeding in all of `bytes`, first to last.
pub open spec fn djb2_fold(state: u64, bytes: Seq<u8>) -> u64
    decreases bytes.len(),
{
    if bytes.len() == 0 {
        state
    } else {
        djb2_step(djb2_fold(state, bytes.drop_last()), bytes.last())
    }
}

/// A simple hasher that can also be evaluated at compile time.
#[derive(Copy, Clone, PartialEq, Eq, Structural, PartialOrd, Ord, Hash, Debug)]
pub struct Hasher(pub u64);

impl Hasher {
    /// Construct a new `Hasher` with the recommended seed
    pub fn new() -> (h: Self)
        ensures
            h.0 == djb2_seed(),
    {
        Hasher(5381)
    }

    /// Write additional bytes to the hasher
    pub fn write(&mut self, bytes: &[u8])
        ensures
            final(self).0 == djb2_fold(old(self).0, bytes@),
    {
        let ghost start = self.0;
        let mut i: usize = 0;
        while i < bytes.len()
            invariant
                0 <= i <= bytes.len(),
                self.0 == djb2_fold(start, bytes@.take(i as int)),
                start == old(self).0,
            decreases bytes.len() - i,
        {
            assert(bytes@.take(i + 1).drop_last() =~= bytes@.take(i as int));
            self.0 = self.0.wrapping_mul(33) ^ (bytes[i] as u64);
            i += 1;
        }
        assert(bytes@.take(i as int) =~= bytes@);
    }
}

/// Feeding bytes in two pieces gives the same state as feeding their concatenation at once.
pub proof fn lemma_djb2_fold_concat(state: u64, a: Seq<u8>, b: Seq<u8>)
    ensures
        djb2_fold(djb2_fold(state, a), b) == djb2_fold(state, a + b),
    decreases b.len(),
{
    if b.len() == 0 {
        assert(a + b =~= a);
    } else {
        lemma_djb2_fold_concat(state, a, b.drop_last());
        assert((a + b).drop_last() =~= a + b.drop_last());
        assert((a + b).last() == b.last());
    }
}

/// One step xors the byte into the multiplied state unchanged: undoing the
/// multiplication's contribution gives the byte back, so from the same state two
/// different bytes always lead to different states.
pub proof fn lemma_djb2_step_keeps_the_byte(state: u64, a: u8, b: u8)
    ensures
        djb2_step(state, a) ^ vstd::wrapping::u64_specs::wrapping_mul(state, 33) == a as u64,
        djb2_step(state, a) == djb2_step(state, b) ==> a == b,
{
    let m = vstd::wrapping::u64_specs::wrapping_mul(state, 33);
    assert((m ^ (a as u64)) ^ m == a as u64) by (bit_vector);
    assert((m ^ (a as u64)) == (m ^ (b as u64)) ==> a == b) by (bit_vector);
}

/// Hashing a single byte from the seed is injective: different bytes, such as upper and
/// lower case letters, give different hashes.
pub proof fn lemma_djb2_single_bytes_differ(a: u8, b: u8)
    requires
        a != b,
    ensures
        djb2_fold(djb2_seed(), seq![a]) != djb2_fold(djb2_seed(), seq![b]),
{
    assert(seq![a].drop_last() =~= Seq::<u8>::empty());
    assert(seq![b].drop_last() =~= Seq::<u8>::empty());
    assert(djb2_fold(djb2_seed(), Seq::<u8>::empty()) == djb2_seed());
    assert(seq![a].last() == a);
    assert(seq![b].last() == b);
    assert(djb2_fold(djb2_seed(), seq![a]) == djb2_step(djb2_seed(), a));
    assert(djb2_fold(djb2_seed(), seq![b]) == djb2_step(djb2_seed(), b));
    lemma_djb2_step_keeps_the_byte(djb2_seed(), a, b);
}

} // verus!
