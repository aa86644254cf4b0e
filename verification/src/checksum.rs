//! Checksum engine: the lightweight integrity token carried by the Data
//! commands. The running value starts at the seed `0xEF` and each payload
//! byte is folded in by exclusive or.

use vstd::prelude::*;

verus! {

/// Seed of the running checksum value.
pub const CHECKSUM_SEED: u8 = 0xEF;

/// The protocol checksum of a payload: the seed `0xEF` folded with every
/// payload byte by exclusive or.
pub open spec fn spec_checksum(data: Seq<u8>) -> u8
    decreases data.len(),
{
    if data.len() == 0 {
        CHECKSUM_SEED
    } else {
        spec_checksum(data.drop_last()) ^ data.last()
    }
}

/// Compute the protocol checksum of a payload.
pub fn checksum(data: &[u8]) -> (r: u8)
    ensures
        r == spec_checksum(data@),
{
    let mut acc: u8 = CHECKSUM_SEED;
    let mut i: usize = 0;
    while i < data.len()
        invariant
            0 <= i <= data@.len(),
            acc == spec_checksum(data@.subrange(0, i as int)),
        decreases data@.len() - i,
    {
        proof {
            assert(data@.subrange(0, i + 1).drop_last() =~= data@.subrange(0, i as int));
            assert(data@.subrange(0, i + 1).last() == data@[i as int]);
        }
        acc = acc ^ data[i];
        i = i + 1;
    }
    proof {
        assert(data@.subrange(0, data@.len() as int) =~= data@);
    }
    acc
}

/// Exclusive or is associative and commutative enough to pull a mask out of
/// a fold: folding `b ^ c` equals folding `b` and then applying `c`, and a
/// trailing fold may be swapped with the mask.
proof fn lemma_xor_fold(a: u8, b: u8, c: u8)
    ensures
        a ^ (b ^ c) == (a ^ b) ^ c,
        (a ^ b) ^ c == (a ^ c) ^ b,
{
    assert(a ^ (b ^ c) == (a ^ b) ^ c) by (bit_vector);
    assert((a ^ b) ^ c == (a ^ c) ^ b) by (bit_vector);
}

/// Changing one payload byte by an exclusive-or mask changes the checksum
/// by exactly that mask.
proof fn lemma_checksum_update(data: Seq<u8>, i: int, mask: u8)
    requires
        0 <= i < data.len(),
    ensures
        spec_checksum(data.update(i, data[i] ^ mask)) == spec_checksum(data) ^ mask,
    decreases data.len(),
{
    let tampered = data.update(i, data[i] ^ mask);
    assert(tampered.len() == data.len());
    if i == data.len() - 1 {
        assert(tampered.drop_last() =~= data.drop_last());
        assert(tampered.last() == data[i] ^ mask);
        assert(data.last() == data[i]);
        lemma_xor_fold(spec_checksum(data.drop_last()), data[i], mask);
        assert(spec_checksum(tampered)
            == spec_checksum(data.drop_last()) ^ (data[i] ^ mask));
    } else {
        assert(data.drop_last()[i] == data[i]);
        assert(tampered.drop_last() =~= data.drop_last().update(i, data[i] ^ mask));
        assert(tampered.last() == data.last());
        lemma_checksum_update(data.drop_last(), i, mask);
        assert(spec_checksum(tampered)
            == (spec_checksum(data.drop_last()) ^ mask) ^ data.last());
        lemma_xor_fold(spec_checksum(data.drop_last()), mask, data.last());
        assert(spec_checksum(tampered)
            == (spec_checksum(data.drop_last()) ^ data.last()) ^ mask);
    }
}

/// Tampering with a payload — flipping any non-empty set of bits inside one
/// byte without updating the checksum — always changes the checksum, so a
/// stale checksum can never match the tampered payload.
pub proof fn lemma_checksum_detects_tampering(data: Seq<u8>, i: int, mask: u8)
    requires
        0 <= i < data.len(),
        mask != 0,
    ensures
        spec_checksum(data.update(i, data[i] ^ mask)) != spec_checksum(data),
{
    lemma_checksum_update(data, i, mask);
    let c = spec_checksum(data);
    assert(c ^ mask != c) by (bit_vector)
        requires
            mask != 0,
    ;
}

} // verus!
