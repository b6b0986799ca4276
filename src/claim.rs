//! A claim of membership in a snapshot: its leaf and its proof bundle.
use vstd::prelude::*;

use crate::bytes::{concat, Pubkey};
use crate::hash::{keccak, keccak_of};
use crate::merkle::{
    collision_exists, digests_view, fold_proof, keccak_collision, lemma_distinct_starts_collide,
    siblings_well_sized,
};

verus! {

/// Byte `i` (from the least significant) of `x`.
pub open spec fn byte_of(x: u64, i: int) -> u8 {
    ((x >> (8 * i) as u64) & 0xff) as u8
}

/// The 8-byte little-endian encoding of `x`.
pub open spec fn le_bytes(x: u64) -> Seq<u8> {
    Seq::new(8, |i: int| byte_of(x, i))
}

/// The integer whose little-endian encoding is the first 8 bytes of `b`.
pub open spec fn u64_from_le(b: Seq<u8>) -> u64 {
    (b[0] as u64) | ((b[1] as u64) << 8u64) | ((b[2] as u64) << 16u64) | ((b[3] as u64) << 24u64)
        | ((b[4] as u64) << 32u64) | ((b[5] as u64) << 40u64) | ((b[6] as u64) << 48u64) | ((
    b[7] as u64) << 56u64)
}

/// The bytes hashed into a snapshot row's leaf: index (little-endian), voter identity,
/// amount (little-endian).
pub open spec fn leaf_preimage(index: u64, voter: Seq<u8>, amount: u64) -> Seq<u8> {
    le_bytes(index) + voter + le_bytes(amount)
}

/// The leaf of the snapshot row (index, voter, amount).
pub open spec fn leaf_of(index: u64, voter: Seq<u8>, amount: u64) -> [u8; 32] {
    keccak_of(leaf_preimage(index, voter, amount))
}

/// A proof bundle's wire form: an 8-byte index followed by whole 32-byte siblings.
pub open spec fn bundle_well_formed(data: Seq<u8>) -> bool {
    data.len() >= 8 && (data.len() - 8) % 32 == 0
}

/// The index that a proof bundle carries.
pub open spec fn bundle_index(data: Seq<u8>) -> u64 {
    u64_from_le(data.subrange(0, 8))
}

/// The siblings that a well-formed proof bundle carries, in order.
pub open spec fn bundle_siblings(data: Seq<u8>) -> Seq<Seq<u8>> {
    Seq::new(
        ((data.len() - 8) / 32) as nat,
        |i: int| data.subrange(8 + 32 * i, 8 + 32 * i + 32),
    )
}

/// The claim that `voter` holds `amount` in the snapshot committed by `root`, backed by
/// the proof bundle `data`, is proved.
pub open spec fn claim_verifies(root: [u8; 32], voter: Seq<u8>, amount: u64, data: Seq<u8>) -> bool {
    &&& bundle_well_formed(data)
    &&& fold_proof(leaf_of(bundle_index(data), voter, amount), bundle_siblings(data)) == root
}

proof fn lemma_le_bytes_injective(x: u64, y: u64)
    requires
        le_bytes(x) == le_bytes(y),
    ensures
        x == y,
{
    assert(le_bytes(x)[0] == le_bytes(y)[0]);
    assert(le_bytes(x)[0] == byte_of(x, 0));
    assert(le_bytes(y)[0] == byte_of(y, 0));
    assert(byte_of(x, 0) == byte_of(y, 0));
    assert(le_bytes(x)[1] == le_bytes(y)[1]);
    assert(le_bytes(x)[1] == byte_of(x, 1));
    assert(le_bytes(y)[1] == byte_of(y, 1));
    assert(le_bytes(x)[2] == le_bytes(y)[2]);
    assert(le_bytes(x)[2] == byte_of(x, 2));
    assert(le_bytes(y)[2] == byte_of(y, 2));
    assert(le_bytes(x)[3] == le_bytes(y)[3]);
    assert(le_bytes(x)[3] == byte_of(x, 3));
    assert(le_bytes(y)[3] == byte_of(y, 3));
    assert(le_bytes(x)[4] == le_bytes(y)[4]);
    assert(le_bytes(x)[4] == byte_of(x, 4));
    assert(le_bytes(y)[4] == byte_of(y, 4));
    assert(le_bytes(x)[5] == le_bytes(y)[5]);
    assert(le_bytes(x)[5] == byte_of(x, 5));
    assert(le_bytes(y)[5] == byte_of(y, 5));
    assert(le_bytes(x)[6] == le_bytes(y)[6]);
    assert(le_bytes(x)[6] == byte_of(x, 6));
    assert(le_bytes(y)[6] == byte_of(y, 6));
    assert(le_bytes(x)[7] == le_bytes(y)[7]);
    assert(le_bytes(x)[7] == byte_of(x, 7));
    assert(le_bytes(y)[7] == byte_of(y, 7));
    assert(x == y) by (bit_vector)
        requires
            ((x >> 0u64) & 0xff) as u8 == ((y >> 0u64) & 0xff) as u8,
            ((x >> 8u64) & 0xff) as u8 == ((y >> 8u64) & 0xff) as u8,
            ((x >> 16u64) & 0xff) as u8 == ((y >> 16u64) & 0xff) as u8,
            ((x >> 24u64) & 0xff) as u8 == ((y >> 24u64) & 0xff) as u8,
            ((x >> 32u64) & 0xff) as u8 == ((y >> 32u64) & 0xff) as u8,
            ((x >> 40u64) & 0xff) as u8 == ((y >> 40u64) & 0xff) as u8,
            ((x >> 48u64) & 0xff) as u8 == ((y >> 48u64) & 0xff) as u8,
            ((x >> 56u64) & 0xff) as u8 == ((y >> 56u64) & 0xff) as u8,
    ;
}

/// Distinct snapshot rows have distinct leaf preimages.
proof fn lemma_leaf_preimage_injective(
    index1: u64,
    voter1: Pubkey,
    amount1: u64,
    index2: u64,
    voter2: Pubkey,
    amount2: u64,
)
    requires
        leaf_preimage(index1, voter1@, amount1) == leaf_preimage(index2, voter2@, amount2),
    ensures
        index1 == index2,
        voter1 == voter2,
        amount1 == amount2,
{
    let p = leaf_preimage(index1, voter1@, amount1);
    let q = leaf_preimage(index2, voter2@, amount2);
    assert(le_bytes(index1) =~= p.subrange(0, 8));
    assert(le_bytes(index2) =~= q.subrange(0, 8));
    assert(voter1@ =~= p.subrange(8, 40));
    assert(voter2@ =~= q.subrange(8, 40));
    assert(le_bytes(amount1) =~= p.subrange(40, 48));
    assert(le_bytes(amount2) =~= q.subrange(40, 48));
    lemma_le_bytes_injective(index1, index2);
    lemma_le_bytes_injective(amount1, amount2);
    assert(voter1 =~= voter2);
}

/// Two claims that carry the same siblings but differ in index, voter or amount are both
/// accepted against one root only through a collision of the hash.
pub proof fn lemma_altered_row_collides(
    root: [u8; 32],
    voter1: Pubkey,
    amount1: u64,
    data1: Seq<u8>,
    voter2: Pubkey,
    amount2: u64,
    data2: Seq<u8>,
)
    requires
        claim_verifies(root, voter1@, amount1, data1),
        claim_verifies(root, voter2@, amount2, data2),
        bundle_siblings(data1) == bundle_siblings(data2),
        (bundle_index(data1), voter1, amount1) != (bundle_index(data2), voter2, amount2),
    ensures
        collision_exists(),
{
    let i1 = bundle_index(data1);
    let i2 = bundle_index(data2);
    let proof = bundle_siblings(data1);
    assert(siblings_well_sized(proof));
    if leaf_preimage(i1, voter1@, amount1) == leaf_preimage(i2, voter2@, amount2) {
        lemma_leaf_preimage_injective(i1, voter1, amount1, i2, voter2, amount2);
    }
    let l1 = leaf_of(i1, voter1@, amount1);
    let l2 = leaf_of(i2, voter2@, amount2);
    if l1 == l2 {
        assert(keccak_collision(
            leaf_preimage(i1, voter1@, amount1),
            leaf_preimage(i2, voter2@, amount2),
        ));
    } else {
        lemma_distinct_starts_collide(l1, l2, proof);
    }
}

/// A decoded proof bundle: the row index and the ordered sibling digests.
pub struct ProofBundle {
    pub index: u64,
    pub proof: Vec<[u8; 32]>,
}

/// The little-endian encoding of `x`.
pub fn u64_to_le(x: u64) -> (r: [u8; 8])
    ensures
        r@ == le_bytes(x),
{
    let mut r: [u8; 8] = [0u8; 8];
    let mut i: usize = 0;
    while i < 8
        invariant
            i <= 8,
            forall|k: int| 0 <= k < i ==> r[k] == byte_of(x, k),
        decreases 8 - i,
    {
        let shift: u64 = 8 * i as u64;
        let v: u64 = (x >> shift) & 0xff;
        assert(v < 256) by (bit_vector)
            requires
                v == (x >> shift) & 0xff,
        ;
        r[i] = v as u8;
        i += 1;
    }
    assert(r@ =~= le_bytes(x));
    r
}

/// The integer encoded little-endian in the first 8 bytes of `b`.
pub fn u64_from_le_slice(b: &[u8]) -> (r: u64)
    requires
        b@.len() >= 8,
    ensures
        r == u64_from_le(b@),
{
    (b[0] as u64) | ((b[1] as u64) << 8u64) | ((b[2] as u64) << 16u64) | ((b[3] as u64) << 24u64)
        | ((b[4] as u64) << 32u64) | ((b[5] as u64) << 40u64) | ((b[6] as u64) << 48u64) | ((
    b[7] as u64) << 56u64)
}

/// The leaf of the snapshot row (index, voter, amount).
pub fn leaf_hash(index: u64, voter: &Pubkey, amount: u64) -> (r: [u8; 32])
    ensures
        r == leaf_of(index, voter@, amount),
{
    let index_bytes = u64_to_le(index);
    let amount_bytes = u64_to_le(amount);
    let head = concat(&index_bytes, voter);
    let preimage = concat(head.as_slice(), &amount_bytes);
    keccak(preimage.as_slice())
}

impl ProofBundle {
    /// Decodes a proof bundle; `None` when it is not an 8-byte index followed by whole
    /// 32-byte siblings.
    pub fn parse(data: &[u8]) -> (r: Option<ProofBundle>)
        ensures
            r is Some <==> bundle_well_formed(data@),
            r matches Some(b) ==> {
                &&& b.index == bundle_index(data@)
                &&& digests_view(b.proof@) == bundle_siblings(data@)
            },
    {
        let len = data.len();
        if len < 8 || (len - 8) % 32 != 0 {
            return None;
        }
        let index = u64_from_le_slice(data);
        assert(data@.subrange(0, 8)[0] == data@[0]);
        assert(u64_from_le(data@.subrange(0, 8)) == u64_from_le(data@));
        let n: usize = (len - 8) / 32;
        assert(data@.len() == 8 + 32 * n);
        let mut proof: Vec<[u8; 32]> = Vec::new();
        let mut k: usize = 0;
        while k < n
            invariant
                n == (data@.len() - 8) / 32,
                data@.len() == 8 + 32 * n,
                len == data@.len(),
                bundle_well_formed(data@),
                k <= n,
                proof@.len() == k,
                digests_view(proof@) =~= bundle_siblings(data@).take(k as int),
            decreases n - k,
        {
            let pos: usize = 8 + 32 * k;
            let mut h: [u8; 32] = [0u8; 32];
            let mut j: usize = 0;
            while j < 32
                invariant
                    n == (data@.len() - 8) / 32,
                    data@.len() == 8 + 32 * n,
                len == data@.len(),
                    bundle_well_formed(data@),
                    k < n,
                    pos == 8 + 32 * k,
                    j <= 32,
                    forall|t: int| 0 <= t < j ==> h[t] == data@[pos + t],
                decreases 32 - j,
            {
                h[j] = data[pos + j];
                j += 1;
            }
            proof.push(h);
            assert(h@ =~= data@.subrange(8 + 32 * k, 8 + 32 * k + 32));
            assert(digests_view(proof@) =~= bundle_siblings(data@).take(k + 1));
            k += 1;
        }
        assert(bundle_siblings(data@).take(n as int) =~= bundle_siblings(data@));
        Some(ProofBundle { index, proof })
    }
}

} // verus!
