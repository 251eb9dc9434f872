//! Membership of a claimant in a round's tree, shown by a path of siblings.

use vstd::prelude::*;
use crate::hash_chain::{combine, combine_spec, hash_eq, leaf, leaf_spec};
use crate::registry::RoundRegistry;

verus! {

/// The siblings of a proof as byte strings.
pub open spec fn nodes(proof: Seq<[u8; 32]>) -> Seq<Seq<u8>> {
    Seq::new(proof.len(), |i: int| proof[i]@)
}

/// The node reached from `start` by combining it with each sibling in turn.
pub open spec fn fold_path(start: Seq<u8>, siblings: Seq<Seq<u8>>) -> Seq<u8>
    decreases siblings.len(),
{
    if siblings.len() == 0 {
        start
    } else {
        combine_spec(fold_path(start, siblings.drop_last()), siblings.last())
    }
}

/// A proof is accepted for an identity and a round when the round exists and
/// the path from the identity's leaf ends at the round's root.
pub open spec fn verify_spec(
    registry: Seq<Seq<u8>>,
    identity: Seq<u8>,
    round_id: int,
    siblings: Seq<Seq<u8>>,
) -> bool {
    0 <= round_id < registry.len() && fold_path(leaf_spec(identity), siblings)
        == registry[round_id]
}

/// Walks the whole path from `leaf` and compares its end with `root`.
pub fn verify_merkle_proof(leaf: [u8; 32], proof: &Vec<[u8; 32]>, root: [u8; 32]) -> (accepted:
    bool)
    ensures
        accepted == (fold_path(leaf@, nodes(proof@)) == root@),
{
    let mut computed: [u8; 32] = leaf;
    let mut i: usize = 0;
    while i < proof.len()
        invariant
            i <= proof@.len(),
            computed@ == fold_path(leaf@, nodes(proof@).take(i as int)),
        decreases proof@.len() - i,
    {
        proof {
            let next = nodes(proof@).take(i + 1);
            assert(next.drop_last() =~= nodes(proof@).take(i as int));
            assert(next.last() == proof@[i as int]@);
        }
        computed = combine(&computed, &proof[i]);
        i += 1;
    }
    assert(nodes(proof@).take(i as int) =~= nodes(proof@));
    hash_eq(&computed, &root)
}

/// Decides whether `proof` shows that `identity` belongs to round `round_id`.
/// A round that the registry does not hold accepts nobody.
pub fn verify(
    registry: &RoundRegistry,
    identity: &[u8; 32],
    round_id: usize,
    proof: &Vec<[u8; 32]>,
) -> (accepted: bool)
    ensures
        accepted == verify_spec(registry@, identity@, round_id as int, nodes(proof@)),
{
    match registry.root_for(round_id) {
        Ok(root) => verify_merkle_proof(leaf(identity), proof, root),
        Err(_) => false,
    }
}

} // verus!
