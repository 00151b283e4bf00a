//! Derivation of an entity's 64-bit key from a transaction's 32-byte identifier.

use vstd::prelude::*;

verus! {

/// The big-endian reading of the first eight bytes of `b`: `b[0]` is the most significant.
pub open spec fn first8_be(b: Seq<u8>) -> u64
    recommends
        b.len() >= 8,
{
    ((b[0] as u64) << 56u64) | ((b[1] as u64) << 48u64) | ((b[2] as u64) << 40u64) | ((b[3] as u64)
        << 32u64) | ((b[4] as u64) << 24u64) | ((b[5] as u64) << 16u64) | ((b[6] as u64) << 8u64)
        | (b[7] as u64)
}

/// The key of the entity made from the transaction with identifier `id`: its first eight bytes
/// read as a big-endian unsigned integer.
pub fn first8_bytes_to_u64(id: &[u8; 32]) -> (r: u64)
    ensures
        r == first8_be(id@),
{
    ((id[0] as u64) << 56u64) | ((id[1] as u64) << 48u64) | ((id[2] as u64) << 40u64) | ((
    id[3] as u64) << 32u64) | ((id[4] as u64) << 24u64) | ((id[5] as u64) << 16u64) | ((id[6] as u64)
        << 8u64) | (id[7] as u64)
}

/// Two identifiers get the same key exactly when their first eight bytes agree.
pub proof fn lemma_key_distinguishes_prefix(a: Seq<u8>, b: Seq<u8>)
    requires
        a.len() == 32,
        b.len() == 32,
    ensures
        first8_be(a) == first8_be(b) <==> a.subrange(0, 8) == b.subrange(0, 8),
{
    let (a0, a1, a2, a3, a4, a5, a6, a7) = (a[0], a[1], a[2], a[3], a[4], a[5], a[6], a[7]);
    let (b0, b1, b2, b3, b4, b5, b6, b7) = (b[0], b[1], b[2], b[3], b[4], b[5], b[6], b[7]);
    assert(((a0 as u64) << 56u64) | ((a1 as u64) << 48u64) | ((a2 as u64) << 40u64) | ((a3 as u64)
        << 32u64) | ((a4 as u64) << 24u64) | ((a5 as u64) << 16u64) | ((a6 as u64) << 8u64) | (
    a7 as u64) == ((b0 as u64) << 56u64) | ((b1 as u64) << 48u64) | ((b2 as u64) << 40u64) | ((
    b3 as u64) << 32u64) | ((b4 as u64) << 24u64) | ((b5 as u64) << 16u64) | ((b6 as u64) << 8u64)
        | (b7 as u64) <==> (a0 == b0 && a1 == b1 && a2 == b2 && a3 == b3 && a4 == b4 && a5 == b5
        && a6 == b6 && a7 == b7)) by (bit_vector);
    if a.subrange(0, 8) == b.subrange(0, 8) {
        assert forall|i: int| 0 <= i < 8 implies a[i] == b[i] by {
            assert(a[i] == a.subrange(0, 8)[i]);
            assert(b[i] == b.subrange(0, 8)[i]);
        }
    }
    if a0 == b0 && a1 == b1 && a2 == b2 && a3 == b3 && a4 == b4 && a5 == b5 && a6 == b6 && a7
        == b7 {
        assert(a.subrange(0, 8) =~= b.subrange(0, 8));
    }
}

} // verus!
