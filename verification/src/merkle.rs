//! Merkle inclusion-proof verification with sorted-pair hashing.
//!
//! A proof is an ordered list of 32-byte sibling hashes. Starting from the
//! leaf, each step hashes the running value with the next sibling, smaller
//! operand first, and the proof holds iff the final value equals the expected
//! root. The sort-before-hash rule assumes the tree itself was built by
//! always hashing the lexicographically smaller operand first; a tree built
//! with a different rule is outside this verifier's contract.

use vstd::prelude::*;

use solana_program::keccak::hashv;

verus! {

/// The 32-byte digest the host's keccak primitive returns for the
/// concatenation of two byte strings. The digest depends on the input bytes
/// alone.
pub uninterp spec fn keccak_pair(a: Seq<u8>, b: Seq<u8>) -> Seq<u8>;

/// Relies on `solana_program::keccak::hashv`, a fixed cryptographic hash
/// over the concatenation of its input slices, producing 32 bytes.
#[verifier::external_body]
fn hash_pair(a: &[u8; 32], b: &[u8; 32]) -> (r: [u8; 32])
    ensures
        r@ == keccak_pair(a@, b@),
{
    hashv(&[a, b]).to_bytes()
}

/// Strict lexicographic order on byte strings: the order `<` gives fixed-size
/// byte arrays.
pub open spec fn lex_less(a: Seq<u8>, b: Seq<u8>) -> bool
    decreases a.len(),
{
    if b.len() == 0 {
        false
    } else if a.len() == 0 {
        true
    } else if a[0] < b[0] {
        true
    } else if a[0] > b[0] {
        false
    } else {
        lex_less(a.drop_first(), b.drop_first())
    }
}

/// One verification step: hash the running value with the next sibling,
/// smaller operand first.
pub open spec fn merkle_step(node: Seq<u8>, sibling: Seq<u8>) -> Seq<u8> {
    if lex_less(node, sibling) {
        keccak_pair(node, sibling)
    } else {
        keccak_pair(sibling, node)
    }
}

/// The root recomputed from a leaf and an ordered list of siblings.
pub open spec fn merkle_fold(leaf: Seq<u8>, siblings: Seq<Seq<u8>>) -> Seq<u8>
    decreases siblings.len(),
{
    if siblings.len() == 0 {
        leaf
    } else {
        merkle_fold(merkle_step(leaf, siblings[0]), siblings.drop_first())
    }
}

/// The sequence of views of a vector of 32-byte hashes.
pub open spec fn hash_views(proofs: Seq<[u8; 32]>) -> Seq<Seq<u8>> {
    proofs.map_values(|p: [u8; 32]| p@)
}

/// Strict lexicographic comparison of two 32-byte values.
pub fn lex_less_bytes32(a: &[u8; 32], b: &[u8; 32]) -> (r: bool)
    ensures
        r == lex_less(a@, b@),
{
    let mut i: usize = 0;
    proof {
        assert(a@.skip(0) =~= a@);
        assert(b@.skip(0) =~= b@);
    }
    while i < 32
        invariant
            i <= 32,
            lex_less(a@, b@) == lex_less(a@.skip(i as int), b@.skip(i as int)),
        decreases 32 - i,
    {
        proof {
            assert(a@.skip(i as int)[0] == a@[i as int]);
            assert(b@.skip(i as int)[0] == b@[i as int]);
            assert(a@.skip(i as int).drop_first() =~= a@.skip(i as int + 1));
            assert(b@.skip(i as int).drop_first() =~= b@.skip(i as int + 1));
        }
        if a[i] < b[i] {
            return true;
        }
        if a[i] > b[i] {
            return false;
        }
        i += 1;
    }
    proof {
        assert(a@.skip(32) =~= Seq::<u8>::empty());
        assert(b@.skip(32) =~= Seq::<u8>::empty());
    }
    false
}

/// Returns true iff `leaf` is proved to belong to the Merkle tree committed
/// to by `root`: the root recomputed from `leaf` through the ordered sibling
/// hashes in `proofs`, smaller operand hashed first at each step, equals
/// `root`. With an empty proof this is plain equality of `leaf` and `root`.
pub fn verify_proof(proofs: Vec<[u8; 32]>, root: [u8; 32], leaf: [u8; 32]) -> (r: bool)
    ensures
        r == (merkle_fold(leaf@, hash_views(proofs@)) == root@),
{
    let ghost all = hash_views(proofs@);
    let mut computed: [u8; 32] = leaf;
    let mut i: usize = 0;
    proof {
        assert(all.skip(0) =~= all);
    }
    while i < proofs.len()
        invariant
            i <= proofs.len(),
            all == hash_views(proofs@),
            merkle_fold(computed@, all.skip(i as int)) == merkle_fold(leaf@, all),
        decreases proofs.len() - i,
    {
        proof {
            assert(all.skip(i as int)[0] == all[i as int]);
            assert(all.skip(i as int).drop_first() =~= all.skip(i as int + 1));
        }
        let sibling = proofs[i];
        let next = if lex_less_bytes32(&computed, &sibling) {
            hash_pair(&computed, &sibling)
        } else {
            hash_pair(&sibling, &computed)
        };
        computed = next;
        i += 1;
    }
    proof {
        assert(all.skip(proofs@.len() as int) =~= Seq::<Seq<u8>>::empty());
    }
    crate::ids::bytes32_eq(&computed, &root)
}

/// An empty proof verifies exactly when the leaf already equals the root.
pub proof fn lemma_empty_proof(proofs: Seq<[u8; 32]>, leaf: Seq<u8>, root: Seq<u8>)
    requires
        proofs.len() == 0,
    ensures
        (merkle_fold(leaf, hash_views(proofs)) == root) == (leaf == root),
{
    assert(hash_views(proofs).len() == 0);
}

/// Lexicographic order is asymmetric: two byte strings are never each less
/// than the other.
pub proof fn lemma_lex_less_asymmetric(a: Seq<u8>, b: Seq<u8>)
    ensures
        !(lex_less(a, b) && lex_less(b, a)),
    decreases a.len(),
{
    if a.len() > 0 && b.len() > 0 && a[0] == b[0] {
        lemma_lex_less_asymmetric(a.drop_first(), b.drop_first());
    }
}

/// In a two-leaf tree whose root is the hash of the smaller leaf followed by
/// the larger, each leaf is proved by giving the other as its single
/// sibling: both orders recompute the same root.
pub proof fn lemma_two_leaf_tree(l0: Seq<u8>, l1: Seq<u8>)
    requires
        lex_less(l0, l1),
    ensures
        merkle_fold(l0, seq![l1]) == keccak_pair(l0, l1),
        merkle_fold(l1, seq![l0]) == keccak_pair(l0, l1),
{
    lemma_lex_less_asymmetric(l0, l1);
    assert(seq![l1][0] == l1);
    assert(seq![l0][0] == l0);
    assert(seq![l1].drop_first() =~= Seq::<Seq<u8>>::empty());
    assert(seq![l0].drop_first() =~= Seq::<Seq<u8>>::empty());
    assert(merkle_fold(l0, seq![l1]) == merkle_fold(merkle_step(l0, l1), Seq::<Seq<u8>>::empty()));
    assert(merkle_fold(l1, seq![l0]) == merkle_fold(merkle_step(l1, l0), Seq::<Seq<u8>>::empty()));
}

} // verus!
