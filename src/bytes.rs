//! Fixed-width byte strings: comparison, concatenation and little-endian integers.
use vstd::prelude::*;

verus! {

/// A 32-byte identity (realm, mint, voter, program or decision instance).
pub type Pubkey = [u8; 32];

/// The first `n` bytes of `a` and `b` agree.
pub open spec fn prefix_equal(a: Seq<u8>, b: Seq<u8>, n: int) -> bool {
    forall|j: int| 0 <= j < n ==> a[j] == b[j]
}

/// Byte-wise lexicographic order: `a` equals `b`, or at the first position where they
/// differ `a` holds the smaller byte.
pub open spec fn lex_le(a: Seq<u8>, b: Seq<u8>) -> bool {
    ||| a == b
    ||| exists|i: int|
        0 <= i < a.len() && i < b.len() && #[trigger] prefix_equal(a, b, i) && a[i] < b[i]
}

/// All 32 bytes are zero.
pub open spec fn is_zero(a: [u8; 32]) -> bool {
    forall|i: int| 0 <= i < 32 ==> a[i] == 0
}

/// Whether two 32-byte values are equal.
pub fn bytes_eq(a: &[u8; 32], b: &[u8; 32]) -> (r: bool)
    ensures
        r == (*a == *b),
{
    let mut i: usize = 0;
    while i < 32
        invariant
            i <= 32,
            prefix_equal(a@, b@, i as int),
        decreases 32 - i,
    {
        if a[i] != b[i] {
            assert(a@[i as int] != b@[i as int]);
            return false;
        }
        i += 1;
    }
    assert(*a =~= *b);
    true
}

/// Whether all 32 bytes are zero.
pub fn bytes_is_zero(a: &[u8; 32]) -> (r: bool)
    ensures
        r == is_zero(*a),
{
    let mut i: usize = 0;
    while i < 32
        invariant
            i <= 32,
            forall|j: int| 0 <= j < i ==> a[j] == 0,
        decreases 32 - i,
    {
        if a[i] != 0 {
            return false;
        }
        i += 1;
    }
    true
}

/// Whether `a` comes no later than `b` in byte-wise lexicographic order.
pub fn bytes_le(a: &[u8; 32], b: &[u8; 32]) -> (r: bool)
    ensures
        r == lex_le(a@, b@),
{
    let mut i: usize = 0;
    while i < 32
        invariant
            i <= 32,
            prefix_equal(a@, b@, i as int),
        decreases 32 - i,
    {
        if a[i] != b[i] {
            if a[i] < b[i] {
                assert(prefix_equal(a@, b@, i as int));
                return true;
            } else {
                assert(a@ != b@) by {
                    assert(a@[i as int] != b@[i as int]);
                }
                assert forall|k: int|
                    0 <= k < 32 && #[trigger] prefix_equal(a@, b@, k) implies !(a@[k] < b@[k]) by {
                    if k > i {
                        assert(a@[i as int] == b@[i as int]);
                    }
                }
                return false;
            }
        }
        i += 1;
    }
    assert(a@ =~= b@);
    true
}

/// A copy of `a`.
pub fn to_bytes_vec(a: &[u8]) -> (r: Vec<u8>)
    ensures
        r@ == a@,
{
    let mut r: Vec<u8> = Vec::new();
    let mut i: usize = 0;
    while i < a.len()
        invariant
            i <= a@.len(),
            r@ == a@.subrange(0, i as int),
        decreases a@.len() - i,
    {
        r.push(a[i]);
        i += 1;
        assert(r@ =~= a@.subrange(0, i as int));
    }
    assert(a@ =~= a@.subrange(0, a@.len() as int));
    r
}

/// `a` followed by `b`.
pub fn concat(a: &[u8], b: &[u8]) -> (r: Vec<u8>)
    ensures
        r@ == a@ + b@,
{
    let mut r = to_bytes_vec(a);
    let mut j: usize = 0;
    while j < b.len()
        invariant
            j <= b@.len(),
            r@ == a@ + b@.subrange(0, j as int),
        decreases b@.len() - j,
    {
        r.push(b[j]);
        j += 1;
        assert(r@ =~= a@ + b@.subrange(0, j as int));
    }
    assert(b@ =~= b@.subrange(0, b@.len() as int));
    r
}

} // verus!
