//! Merkle inclusion proofs with sorted-pair folding.
use vstd::prelude::*;

use crate::bytes::{bytes_le, concat, lex_le, prefix_equal};
use crate::hash::{keccak, keccak_of};

verus! {

/// The parent of two nodes: the hash of the smaller one (byte-wise) followed by the other.
pub open spec fn pair_hash(a: Seq<u8>, b: Seq<u8>) -> [u8; 32] {
    if lex_le(a, b) {
        keccak_of(a + b)
    } else {
        keccak_of(b + a)
    }
}

/// The root recomputed from `leaf` by folding in each sibling of `proof` in order.
pub open spec fn fold_proof(leaf: [u8; 32], proof: Seq<Seq<u8>>) -> [u8; 32]
    decreases proof.len(),
{
    if proof.len() == 0 {
        leaf
    } else {
        pair_hash(fold_proof(leaf, proof.drop_last())@, proof.last())
    }
}

/// The byte strings of a sequence of digests.
pub open spec fn digests_view(proof: Seq<[u8; 32]>) -> Seq<Seq<u8>> {
    proof.map_values(|h: [u8; 32]| h@)
}

/// The parent node of `a` and `b` under the sorted-pair rule.
pub fn hash_pair(a: &[u8; 32], b: &[u8; 32]) -> (r: [u8; 32])
    ensures
        r == pair_hash(a@, b@),
{
    let joined = if bytes_le(a, b) {
        concat(a, b)
    } else {
        concat(b, a)
    };
    keccak(joined.as_slice())
}

/// The root that `proof` leads to from `leaf`.
pub fn compute_root(proof: &Vec<[u8; 32]>, leaf: &[u8; 32]) -> (r: [u8; 32])
    ensures
        r == fold_proof(*leaf, digests_view(proof@)),
{
    let mut current: [u8; 32] = *leaf;
    let mut i: usize = 0;
    while i < proof.len()
        invariant
            i <= proof@.len(),
            current == fold_proof(*leaf, digests_view(proof@.take(i as int))),
        decreases proof@.len() - i,
    {
        let node = &proof[i];
        current = hash_pair(&current, node);
        proof {
            let next = digests_view(proof@.take(i + 1));
            assert(next.drop_last() =~= digests_view(proof@.take(i as int)));
            assert(next.last() == proof@[i as int]@);
        }
        i += 1;
    }
    assert(proof@.take(proof@.len() as int) =~= proof@);
    current
}

/// Whether `proof` proves that `leaf` is in the tree committed to by `root`: folding
/// the siblings in order into `leaf` must give `root` exactly.
pub fn verify_proof(proof: Vec<[u8; 32]>, root: [u8; 32], leaf: [u8; 32]) -> (r: bool)
    ensures
        r == (fold_proof(leaf, digests_view(proof@)) == root),
{
    let computed = compute_root(&proof, &leaf);
    crate::bytes::bytes_eq(&computed, &root)
}


/// The root of the tree over `leaves` that splits each level at its middle and joins
/// two halves by `pair_hash`.
pub open spec fn tree_root(leaves: Seq<[u8; 32]>) -> [u8; 32]
    decreases leaves.len(),
{
    if leaves.len() <= 1 {
        leaves[0]
    } else {
        let h = leaves.len() / 2;
        pair_hash(tree_root(leaves.take(h as int))@, tree_root(leaves.skip(h as int))@)
    }
}

/// The siblings, from the leaf upwards, on the path of leaf `i` in `tree_root(leaves)`.
pub open spec fn tree_proof(leaves: Seq<[u8; 32]>, i: int) -> Seq<Seq<u8>>
    decreases leaves.len(),
{
    if leaves.len() <= 1 {
        Seq::empty()
    } else {
        let h = (leaves.len() / 2) as int;
        if i < h {
            tree_proof(leaves.take(h), i).push(tree_root(leaves.skip(h))@)
        } else {
            tree_proof(leaves.skip(h), i - h).push(tree_root(leaves.take(h))@)
        }
    }
}

/// Two distinct byte strings with the same Keccak-256 digest.
pub open spec fn keccak_collision(x: Seq<u8>, y: Seq<u8>) -> bool {
    x != y && keccak_of(x) == keccak_of(y)
}

/// Some two distinct byte strings have the same Keccak-256 digest.
pub open spec fn collision_exists() -> bool {
    exists|x: Seq<u8>, y: Seq<u8>| #[trigger] keccak_collision(x, y)
}

/// Every sibling of `proof` is 32 bytes long.
pub open spec fn siblings_well_sized(proof: Seq<Seq<u8>>) -> bool {
    forall|j: int| 0 <= j < proof.len() ==> (#[trigger] proof[j]).len() == 32
}

proof fn lemma_first_difference(a: Seq<u8>, b: Seq<u8>, k: int)
    requires
        a.len() == b.len(),
        a != b,
        0 <= k <= a.len(),
        prefix_equal(a, b, k),
    ensures
        exists|i: int| 0 <= i < a.len() && #[trigger] prefix_equal(a, b, i) && a[i] != b[i],
    decreases a.len() - k,
{
    if k == a.len() {
        assert(a =~= b);
    } else if a[k] != b[k] {
        assert(prefix_equal(a, b, k));
    } else {
        assert(prefix_equal(a, b, k + 1));
        lemma_first_difference(a, b, k + 1);
    }
}

/// Of two distinct byte strings of one length, exactly one comes first.
proof fn lemma_lex_le_total(a: Seq<u8>, b: Seq<u8>)
    requires
        a.len() == b.len(),
        a != b,
    ensures
        lex_le(a, b) != lex_le(b, a),
{
    assert(prefix_equal(a, b, 0));
    lemma_first_difference(a, b, 0);
    let i = choose|i: int| 0 <= i < a.len() && #[trigger] prefix_equal(a, b, i) && a[i] != b[i];
    if a[i] < b[i] {
        assert(lex_le(a, b));
        if lex_le(b, a) {
            let j = choose|j: int|
                0 <= j < b.len() && j < a.len() && #[trigger] prefix_equal(b, a, j) && b[j] < a[j];
            if j < i {
                assert(a[j] == b[j]);
            } else if j > i {
                assert(b[i] == a[i]);
            }
        }
    } else {
        assert(prefix_equal(b, a, i));
        assert(lex_le(b, a));
        if lex_le(a, b) {
            let j = choose|j: int|
                0 <= j < a.len() && j < b.len() && #[trigger] prefix_equal(a, b, j) && a[j] < b[j];
            if j < i {
                assert(a[j] == b[j]);
            } else if j > i {
                assert(a[i] == b[i]);
            }
        }
    }
}

/// The parent of two nodes does not depend on the order they are given in.
pub proof fn lemma_pair_hash_symmetric(a: Seq<u8>, b: Seq<u8>)
    requires
        a.len() == b.len(),
    ensures
        pair_hash(a, b) == pair_hash(b, a),
{
    if a != b {
        lemma_lex_le_total(a, b);
    }
}

proof fn lemma_fold_push(leaf: [u8; 32], proof: Seq<Seq<u8>>, s: Seq<u8>)
    ensures
        fold_proof(leaf, proof.push(s)) == pair_hash(fold_proof(leaf, proof)@, s),
{
    assert(proof.push(s).drop_last() =~= proof);
}

/// Every leaf of a tree built with the sorted-pair rule, with its path of siblings,
/// folds back to exactly the tree's root.
pub proof fn lemma_tree_proof_verifies(leaves: Seq<[u8; 32]>, i: int)
    requires
        0 <= i < leaves.len(),
    ensures
        fold_proof(leaves[i], tree_proof(leaves, i)) == tree_root(leaves),
    decreases leaves.len(),
{
    if leaves.len() > 1 {
        let h = (leaves.len() / 2) as int;
        let left = leaves.take(h);
        let right = leaves.skip(h);
        if i < h {
            assert(left[i] == leaves[i]);
            lemma_tree_proof_verifies(left, i);
            lemma_fold_push(leaves[i], tree_proof(left, i), tree_root(right)@);
        } else {
            assert(right[i - h] == leaves[i]);
            lemma_tree_proof_verifies(right, i - h);
            lemma_fold_push(leaves[i], tree_proof(right, i - h), tree_root(left)@);
            lemma_pair_hash_symmetric(tree_root(right)@, tree_root(left)@);
        }
    }
}

proof fn lemma_split_32(a: Seq<u8>, b: Seq<u8>, c: Seq<u8>, d: Seq<u8>)
    requires
        a.len() == 32,
        b.len() == 32,
        c.len() == 32,
        d.len() == 32,
        a + b == c + d,
    ensures
        a == c,
        b == d,
{
    assert(a =~= (a + b).subrange(0, 32));
    assert(c =~= (c + d).subrange(0, 32));
    assert(b =~= (a + b).subrange(32, 64));
    assert(d =~= (c + d).subrange(32, 64));
}

/// Two distinct nodes joined with one sibling give one parent only through a collision.
proof fn lemma_distinct_nodes_same_sibling(f1: [u8; 32], f2: [u8; 32], s: Seq<u8>)
    requires
        f1 != f2,
        s.len() == 32,
        pair_hash(f1@, s) == pair_hash(f2@, s),
    ensures
        collision_exists(),
{
    let x1 = if lex_le(f1@, s) { f1@ + s } else { s + f1@ };
    let x2 = if lex_le(f2@, s) { f2@ + s } else { s + f2@ };
    if x1 == x2 {
        if lex_le(f1@, s) {
            if lex_le(f2@, s) {
                lemma_split_32(f1@, s, f2@, s);
            } else {
                lemma_split_32(f1@, s, s, f2@);
            }
        } else {
            if lex_le(f2@, s) {
                lemma_split_32(s, f1@, f2@, s);
            } else {
                lemma_split_32(s, f1@, s, f2@);
            }
        }
        assert(f1 =~= f2);
    }
    assert(keccak_collision(x1, x2));
}

/// Distinct nodes folded through one path reach one root only through a collision.
pub proof fn lemma_distinct_starts_collide(c1: [u8; 32], c2: [u8; 32], proof: Seq<Seq<u8>>)
    requires
        c1 != c2,
        siblings_well_sized(proof),
        fold_proof(c1, proof) == fold_proof(c2, proof),
    ensures
        collision_exists(),
    decreases proof.len(),
{
    if proof.len() > 0 {
        let rest = proof.drop_last();
        let f1 = fold_proof(c1, rest);
        let f2 = fold_proof(c2, rest);
        if f1 == f2 {
            lemma_distinct_starts_collide(c1, c2, rest);
        } else {
            lemma_distinct_nodes_same_sibling(f1, f2, proof.last());
        }
    }
}

proof fn lemma_fold_split(leaf: [u8; 32], proof: Seq<Seq<u8>>, m: int)
    requires
        0 <= m <= proof.len(),
    ensures
        fold_proof(leaf, proof) == fold_proof(fold_proof(leaf, proof.take(m)), proof.skip(m)),
    decreases proof.len(),
{
    if proof.len() == m {
        assert(proof.take(m) =~= proof);
        assert(proof.skip(m) =~= Seq::<Seq<u8>>::empty());
    } else {
        let rest = proof.drop_last();
        lemma_fold_split(leaf, rest, m);
        assert(rest.take(m) =~= proof.take(m));
        assert(proof.skip(m).drop_last() =~= rest.skip(m));
        assert(proof.skip(m).last() == proof.last());
    }
}

/// A path that differs from a valid one in a single sibling reaches the same root only
/// through a collision of the hash.
pub proof fn lemma_altered_sibling_collides(
    leaf: [u8; 32],
    path_a: Seq<Seq<u8>>,
    path_b: Seq<Seq<u8>>,
    k: int,
)
    requires
        path_a.len() == path_b.len(),
        siblings_well_sized(path_a),
        siblings_well_sized(path_b),
        0 <= k < path_a.len(),
        path_a[k] != path_b[k],
        forall|j: int| 0 <= j < path_a.len() && j != k ==> path_a[j] == path_b[j],
        fold_proof(leaf, path_a) == fold_proof(leaf, path_b),
    ensures
        collision_exists(),
{
    assert(path_a.take(k) =~= path_b.take(k));
    assert(path_a.skip(k + 1) =~= path_b.skip(k + 1));
    let c = fold_proof(leaf, path_a.take(k));
    assert(path_a.take(k + 1) =~= path_a.take(k).push(path_a[k]));
    assert(path_b.take(k + 1) =~= path_b.take(k).push(path_b[k]));
    lemma_fold_push(leaf, path_a.take(k), path_a[k]);
    lemma_fold_push(leaf, path_b.take(k), path_b[k]);
    let g1 = fold_proof(leaf, path_a.take(k + 1));
    let g2 = fold_proof(leaf, path_b.take(k + 1));
    lemma_fold_split(leaf, path_a, k + 1);
    lemma_fold_split(leaf, path_b, k + 1);
    let rest = path_a.skip(k + 1);
    assert(siblings_well_sized(rest)) by {
        assert forall|j: int| 0 <= j < rest.len() implies (#[trigger] rest[j]).len() == 32 by {
            assert(rest[j] == path_a[k + 1 + j]);
        }
    }
    if g1 == g2 {
        let s1 = path_a[k];
        let s2 = path_b[k];
        let x1 = if lex_le(c@, s1) { c@ + s1 } else { s1 + c@ };
        let x2 = if lex_le(c@, s2) { c@ + s2 } else { s2 + c@ };
        if x1 == x2 {
            if lex_le(c@, s1) {
                if lex_le(c@, s2) {
                    lemma_split_32(c@, s1, c@, s2);
                } else {
                    lemma_split_32(c@, s1, s2, c@);
                }
            } else {
                if lex_le(c@, s2) {
                    lemma_split_32(s1, c@, c@, s2);
                } else {
                    lemma_split_32(s1, c@, s2, c@);
                }
            }
        }
        assert(keccak_collision(x1, x2));
    } else {
        lemma_distinct_starts_collide(g1, g2, rest);
    }
}

} // verus!
