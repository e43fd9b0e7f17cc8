//! Fixed 32-byte values: identities, commitments, secrets and seeds.

use vstd::prelude::*;

verus! {

/// The all-zero value: an unfilled roster slot, a missing commitment or reveal.
pub open spec fn zero32() -> Seq<u8> {
    Seq::new(32, |_j: int| 0u8)
}

/// Whether a 32-byte value is all zero.
pub open spec fn is_zero(b: [u8; 32]) -> bool {
    b@ == zero32()
}

/// Byte-wise exclusive or of two 32-byte values.
pub open spec fn xor_spec(a: Seq<u8>, b: Seq<u8>) -> Seq<u8> {
    Seq::new(32, |j: int| a[j] ^ b[j])
}

/// The all-zero 32-byte value.
pub fn zero_bytes() -> (r: [u8; 32])
    ensures
        r@ == zero32(),
{
    let r = [0u8; 32];
    assert(r@ =~= zero32());
    r
}

/// Compares two 32-byte values.
pub fn bytes_eq(a: &[u8; 32], b: &[u8; 32]) -> (r: bool)
    ensures
        r == (*a == *b),
{
    let mut i: usize = 0;
    while i < 32
        invariant
            0 <= i <= 32,
            forall|j: int| 0 <= j < i ==> a[j] == b[j],
        decreases 32 - i,
    {
        if a[i] != b[i] {
            return false;
        }
        i = i + 1;
    }
    assert(*a =~= *b);
    true
}

/// Whether a 32-byte value is all zero.
pub fn is_zero_bytes(b: &[u8; 32]) -> (r: bool)
    ensures
        r == is_zero(*b),
{
    let mut i: usize = 0;
    while i < 32
        invariant
            0 <= i <= 32,
            forall|j: int| 0 <= j < i ==> b[j] == 0u8,
        decreases 32 - i,
    {
        if b[i] != 0 {
            assert(b@[i as int] != zero32()[i as int]);
            return false;
        }
        i = i + 1;
    }
    assert(b@ =~= zero32());
    true
}

/// Byte-wise exclusive or of two 32-byte values.
pub fn xor_bytes(a: &[u8; 32], b: &[u8; 32]) -> (r: [u8; 32])
    ensures
        r@ == xor_spec(a@, b@),
{
    let mut r = [0u8; 32];
    let mut i: usize = 0;
    while i < 32
        invariant
            0 <= i <= 32,
            forall|j: int| 0 <= j < i ==> r[j] == a[j] ^ b[j],
        decreases 32 - i,
    {
        r[i] = a[i] ^ b[i];
        i = i + 1;
    }
    assert(r@ =~= xor_spec(a@, b@));
    r
}

/// Exclusive or is commutative.
pub proof fn lemma_xor_commutative(a: Seq<u8>, b: Seq<u8>)
    requires
        a.len() == 32,
        b.len() == 32,
    ensures
        xor_spec(a, b) == xor_spec(b, a),
{
    assert forall|j: int| 0 <= j < 32 implies #[trigger] xor_spec(a, b)[j] == xor_spec(b, a)[j] by {
        let (x, y) = (a[j], b[j]);
        assert(x ^ y == y ^ x) by (bit_vector);
    }
    assert(xor_spec(a, b) =~= xor_spec(b, a));
}

/// Exclusive or is associative.
pub proof fn lemma_xor_associative(a: Seq<u8>, b: Seq<u8>, c: Seq<u8>)
    requires
        a.len() == 32,
        b.len() == 32,
        c.len() == 32,
    ensures
        xor_spec(xor_spec(a, b), c) == xor_spec(a, xor_spec(b, c)),
{
    assert forall|j: int| 0 <= j < 32 implies #[trigger] xor_spec(xor_spec(a, b), c)[j] == xor_spec(a, xor_spec(b, c))[j] by {
        let (x, y, z) = (a[j], b[j], c[j]);
        assert((x ^ y) ^ z == x ^ (y ^ z)) by (bit_vector);
    }
    assert(xor_spec(xor_spec(a, b), c) =~= xor_spec(a, xor_spec(b, c)));
}

} // verus!
