//! Membership proofs against a committed root.
//!
//! A proof is the list of sibling hashes on the way from a leaf to the root.
//! At each step the two 32-byte values are hashed smaller first, in byte
//! order, so a proof does not say on which side a sibling stands.

use vstd::prelude::*;
use crate::errors::CommonError;
use crate::keccak::keccak256;
use crate::keccak::keccak_hash;

verus! {

/// `k` is the first position at which `a` and `b` differ.
pub open spec fn first_difference(a: Seq<u8>, b: Seq<u8>, k: int) -> bool {
    &&& 0 <= k < a.len()
    &&& k < b.len()
    &&& a[k] != b[k]
    &&& forall|j: int| 0 <= j < k ==> a[j] == b[j]
}

/// `a` comes before `b`, or is `b`, in byte order (for strings of one length).
pub open spec fn bytes_le(a: Seq<u8>, b: Seq<u8>) -> bool {
    a == b || exists|k: int| #[trigger] first_difference(a, b, k) && a[k] < b[k]
}

/// The parent of two nodes: the digest of the smaller followed by the larger.
pub open spec fn parent_of(acc: Seq<u8>, node: Seq<u8>) -> Seq<u8> {
    if bytes_le(acc, node) {
        keccak256(acc + node)
    } else {
        keccak256(node + acc)
    }
}

/// The value reached from `leaf` by combining it with each sibling in turn.
pub open spec fn fold_proof(leaf: Seq<u8>, siblings: Seq<Seq<u8>>) -> Seq<u8>
    decreases siblings.len(),
{
    if siblings.len() == 0 {
        leaf
    } else {
        parent_of(fold_proof(leaf, siblings.drop_last()), siblings.last())
    }
}

/// The siblings of a proof as byte strings.
pub open spec fn sibling_bytes(proof: Seq<[u8; 32]>) -> Seq<Seq<u8>> {
    proof.map_values(|node: [u8; 32]| node@)
}

/// Whether `proof` leads from `leaf` to `root`.
pub open spec fn proof_holds(leaf: Seq<u8>, proof: Seq<[u8; 32]>, root: Seq<u8>) -> bool {
    fold_proof(leaf, sibling_bytes(proof)) == root
}

/// Byte-order comparison of two 32-byte values.
fn node_le(a: &[u8; 32], b: &[u8; 32]) -> (le: bool)
    ensures
        le == bytes_le(a@, b@),
{
    let mut i: usize = 0;
    while i < 32
        invariant
            i <= 32,
            forall|j: int| 0 <= j < i ==> a@[j] == b@[j],
        decreases 32 - i,
    {
        if a[i] != b[i] {
            let below = a[i] < b[i];
            proof {
                let d = i as int;
                assert(first_difference(a@, b@, d));
                assert(a@ != b@);
                assert forall|k: int| #[trigger] first_difference(a@, b@, k) implies k == d by {
                    if k < d {
                        assert(a@[k] == b@[k]);
                    } else if k > d {
                        assert(a@[d] == b@[d]);
                    }
                }
            }
            return below;
        }
        i += 1;
    }
    assert(a@ =~= b@);
    true
}

/// Whether two 32-byte values are the same.
fn node_eq(a: &[u8; 32], b: &[u8; 32]) -> (same: bool)
    ensures
        same == (a@ == b@),
{
    let mut i: usize = 0;
    while i < 32
        invariant
            i <= 32,
            forall|j: int| 0 <= j < i ==> a@[j] == b@[j],
        decreases 32 - i,
    {
        if a[i] != b[i] {
            return false;
        }
        i += 1;
    }
    assert(a@ =~= b@);
    true
}

/// The Keccak-256 digest of `left` followed by `right`.
pub fn hash_nodes(left: &[u8; 32], right: &[u8; 32]) -> (digest: [u8; 32])
    ensures
        digest@ == keccak256(left@ + right@),
{
    let mut data = [0u8; 64];
    let mut i: usize = 0;
    while i < 32
        invariant
            i <= 32,
            forall|j: int| 0 <= j < i ==> data@[j] == left@[j],
        decreases 32 - i,
    {
        data[i] = left[i];
        i += 1;
    }
    let mut k: usize = 0;
    while k < 32
        invariant
            k <= 32,
            forall|j: int| 0 <= j < 32 ==> data@[j] == left@[j],
            forall|j: int| 0 <= j < k ==> data@[32 + j] == right@[j],
        decreases 32 - k,
    {
        data[32 + k] = right[k];
        k += 1;
    }
    assert(data@ =~= left@ + right@);
    keccak_hash(data.as_slice())
}

/// Checks a membership proof: the leaf is folded through the siblings, each
/// pair hashed smaller first, and the result must be the root.
pub fn verify_merkle_proof(leaf: [u8; 32], proof: &[[u8; 32]], root: [u8; 32]) -> (ok: bool)
    ensures
        ok == proof_holds(leaf@, proof@, root@),
{
    let mut acc = leaf;
    let mut i: usize = 0;
    let n = proof.len();
    assert(sibling_bytes(proof@).take(0) =~= Seq::<Seq<u8>>::empty());
    while i < n
        invariant
            i <= n,
            n == proof@.len(),
            acc@ == fold_proof(leaf@, sibling_bytes(proof@).take(i as int)),
        decreases n - i,
    {
        let node = &proof[i];
        proof {
            let sibs = sibling_bytes(proof@);
            let next = sibs.take(i as int + 1);
            assert(next.drop_last() =~= sibs.take(i as int));
            assert(next.last() == node@);
        }
        if node_le(&acc, node) {
            acc = hash_nodes(&acc, node);
        } else {
            acc = hash_nodes(node, &acc);
        }
        i += 1;
    }
    assert(sibling_bytes(proof@).take(n as int) =~= sibling_bytes(proof@));
    node_eq(&acc, &root)
}

/// Succeeds exactly when the proof leads from the leaf to the root.
pub fn assert_merkle_proof(leaf: [u8; 32], proof: &[[u8; 32]], root: [u8; 32]) -> (r: Result<
    (),
    CommonError,
>)
    ensures
        match r {
            Ok(()) => proof_holds(leaf@, proof@, root@),
            Err(e) => e == CommonError::InvalidMerkleProof && !proof_holds(leaf@, proof@, root@),
        },
{
    if verify_merkle_proof(leaf, proof, root) {
        Ok(())
    } else {
        Err(CommonError::InvalidMerkleProof)
    }
}

} // verus!
