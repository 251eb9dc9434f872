//! The trees that commitments are built from, and what a verified path says
//! about them. Nothing here runs: a tree is a mathematical value.

use vstd::prelude::*;
use crate::hash_chain::{combine_spec, hash_spec, law_combine_commutative, lex_le, ordered_pair};
use crate::membership::{fold_path, verify_spec};

verus! {

/// A binary tree over the byte strings that were hashed into its leaves.
pub enum Tree {
    /// A leaf, with the byte string whose digest it is.
    Leaf(Seq<u8>),
    /// An inner node with its two subtrees.
    Node(Box<Tree>, Box<Tree>),
}

impl Tree {
    /// The commitment of the tree: a leaf's digest, or the two subtrees'
    /// roots combined.
    pub open spec fn root(self) -> Seq<u8>
        decreases self,
    {
        match self {
            Tree::Leaf(member) => hash_spec(member),
            Tree::Node(left, right) => combine_spec(left.root(), right.root()),
        }
    }

    /// `member` was hashed into one of the leaves.
    pub open spec fn holds(self, member: Seq<u8>) -> bool
        decreases self,
    {
        match self {
            Tree::Leaf(own) => own == member,
            Tree::Node(left, right) => left.holds(member) || right.holds(member),
        }
    }

    /// `input` is one of the byte strings that are hashed when the root is
    /// computed: a leaf's member, or the ordered pair under an inner node.
    pub open spec fn hashes(self, input: Seq<u8>) -> bool
        decreases self,
    {
        match self {
            Tree::Leaf(own) => own == input,
            Tree::Node(left, right) => input == ordered_pair(left.root(), right.root())
                || left.hashes(input) || right.hashes(input),
        }
    }

    /// No member is 64 bytes long, the length of the pair under an inner node.
    pub open spec fn well_formed(self) -> bool
        decreases self,
    {
        match self {
            Tree::Leaf(own) => own.len() != 64,
            Tree::Node(left, right) => left.well_formed() && right.well_formed(),
        }
    }

    /// The siblings on the way from a leaf that holds `member` up to the
    /// root, the lowest one first.
    pub open spec fn witness(self, member: Seq<u8>) -> Seq<Seq<u8>>
        decreases self,
    {
        match self {
            Tree::Leaf(_) => Seq::empty(),
            Tree::Node(left, right) => if left.holds(member) {
                left.witness(member).push(right.root())
            } else {
                right.witness(member).push(left.root())
            },
        }
    }
}

/// `input` is one of the byte strings that are hashed when the path from
/// `member` along `siblings` is walked.
pub open spec fn path_hashes(member: Seq<u8>, siblings: Seq<Seq<u8>>, input: Seq<u8>) -> bool
    decreases siblings.len(),
{
    if siblings.len() == 0 {
        input == member
    } else {
        input == ordered_pair(
            fold_path(hash_spec(member), siblings.drop_last()),
            siblings.last(),
        ) || path_hashes(member, siblings.drop_last(), input)
    }
}

/// Two different byte strings with one digest.
pub open spec fn collision(a: Seq<u8>, b: Seq<u8>) -> bool {
    a != b && hash_spec(a) == hash_spec(b)
}

/// Walking a path and building a tree hashed two different strings to one
/// digest.
pub open spec fn collision_between(member: Seq<u8>, siblings: Seq<Seq<u8>>, tree: Tree) -> bool {
    exists|a: Seq<u8>, b: Seq<u8>|
        path_hashes(member, siblings, a) && tree.hashes(b) && collision(a, b)
}

/// Every sibling is a digest's length.
pub open spec fn siblings_sized(siblings: Seq<Seq<u8>>) -> bool {
    forall|i: int| 0 <= i < siblings.len() ==> (#[trigger] siblings[i]).len() == 32
}

/// A path ends in a node of 32 bytes.
pub proof fn lemma_fold_len(member: Seq<u8>, siblings: Seq<Seq<u8>>)
    ensures
        fold_path(hash_spec(member), siblings).len() == 32,
    decreases siblings.len(),
{
}

/// Two ordered pairs of digests are equal only if they pair the same nodes.
pub proof fn lemma_ordered_pair_parts(a: Seq<u8>, b: Seq<u8>, c: Seq<u8>, d: Seq<u8>)
    requires
        a.len() == 32,
        b.len() == 32,
        c.len() == 32,
        d.len() == 32,
        ordered_pair(a, b) == ordered_pair(c, d),
    ensures
        (a == c && b == d) || (a == d && b == c),
{
    let left = ordered_pair(a, b);
    let first = if lex_le(a, b) { a } else { b };
    let second = if lex_le(a, b) { b } else { a };
    let third = if lex_le(c, d) { c } else { d };
    let fourth = if lex_le(c, d) { d } else { c };
    assert(left =~= first + second);
    assert(left =~= third + fourth);
    assert(first =~= left.subrange(0, 32));
    assert(third =~= left.subrange(0, 32));
    assert(second =~= left.subrange(32, 64));
    assert(fourth =~= left.subrange(32, 64));
}

/// What an accepted path shows: if the path from `member` along `siblings`
/// ends at the root of `tree`, then `member` is in a leaf of `tree`, or else
/// two different strings with one digest are among those hashed on the way.
pub proof fn lemma_path_sound(tree: Tree, member: Seq<u8>, siblings: Seq<Seq<u8>>)
    requires
        tree.well_formed(),
        member.len() != 64,
        siblings_sized(siblings),
        fold_path(hash_spec(member), siblings) == tree.root(),
    ensures
        tree.holds(member) || collision_between(member, siblings, tree),
    decreases siblings.len(),
{
    if siblings.len() == 0 {
        match tree {
            Tree::Leaf(own) => {
                if own != member {
                    assert(path_hashes(member, siblings, member));
                    assert(tree.hashes(own));
                    assert(collision(member, own));
                }
            },
            Tree::Node(left, right) => {
                let pair = ordered_pair(left.root(), right.root());
                assert(pair.len() == 64);
                assert(path_hashes(member, siblings, member));
                assert(tree.hashes(pair));
                assert(collision(member, pair));
            },
        }
    } else {
        let rest = siblings.drop_last();
        let below = fold_path(hash_spec(member), rest);
        let walked = ordered_pair(below, siblings.last());
        lemma_fold_len(member, rest);
        assert(walked.len() == 64);
        assert(path_hashes(member, siblings, walked));
        match tree {
            Tree::Leaf(own) => {
                assert(tree.hashes(own));
                assert(collision(walked, own));
            },
            Tree::Node(left, right) => {
                let pair = ordered_pair(left.root(), right.root());
                assert(tree.hashes(pair));
                if walked != pair {
                    assert(collision(walked, pair));
                } else {
                    lemma_ordered_pair_parts(below, siblings.last(), left.root(), right.root());
                    let sub = if below == left.root() { *left } else { *right };
                    assert(siblings_sized(rest)) by {
                        assert forall|i: int| 0 <= i < rest.len() implies (#[trigger] rest[i]).len()
                            == 32 by {
                            assert(rest[i] == siblings[i]);
                        }
                    }
                    lemma_path_sound(sub, member, rest);
                    if !sub.holds(member) {
                        let (a, b) = choose|a: Seq<u8>, b: Seq<u8>|
                            path_hashes(member, rest, a) && sub.hashes(b) && collision(a, b);
                        assert(path_hashes(member, siblings, a));
                        assert(tree.hashes(b));
                    }
                }
            },
        }
    }
}

/// The path that a tree gives for one of its members ends at the tree's root.
pub proof fn lemma_witness_leads_to_root(tree: Tree, member: Seq<u8>)
    requires
        tree.holds(member),
    ensures
        fold_path(hash_spec(member), tree.witness(member)) == tree.root(),
        siblings_sized(tree.witness(member)),
    decreases tree,
{
    match tree {
        Tree::Leaf(_) => {},
        Tree::Node(left, right) => {
            let path = tree.witness(member);
            if left.holds(member) {
                lemma_witness_leads_to_root(*left, member);
                assert(path.drop_last() =~= left.witness(member));
                assert(path.last() == right.root());
            } else {
                lemma_witness_leads_to_root(*right, member);
                assert(path.drop_last() =~= right.witness(member));
                assert(path.last() == left.root());
                law_combine_commutative(right.root(), left.root());
            }
            assert(siblings_sized(path)) by {
                assert forall|i: int| 0 <= i < path.len() implies (#[trigger] path[i]).len()
                    == 32 by {
                    if i < path.len() - 1 {
                        assert(path[i] == path.drop_last()[i]);
                    }
                }
            }
        },
    }
}

/// Soundness of verification. Where a round's root is the root of `tree`
/// and a proof is accepted for `identity`, the identity is a member of the
/// tree, unless the walk and the tree hashed two different strings to one
/// digest.
pub proof fn law_verification_sound(
    registry: Seq<Seq<u8>>,
    round_id: int,
    tree: Tree,
    identity: Seq<u8>,
    siblings: Seq<Seq<u8>>,
)
    requires
        tree.well_formed(),
        identity.len() == 32,
        siblings_sized(siblings),
        0 <= round_id < registry.len(),
        registry[round_id] == tree.root(),
        verify_spec(registry, identity, round_id, siblings),
    ensures
        tree.holds(identity) || collision_between(identity, siblings, tree),
{
    lemma_path_sound(tree, identity, siblings);
}

/// Completeness of verification. Where a round's root is the root of `tree`,
/// the path that the tree gives for any of its members is accepted.
pub proof fn law_verification_complete(
    registry: Seq<Seq<u8>>,
    round_id: int,
    tree: Tree,
    identity: Seq<u8>,
)
    requires
        0 <= round_id < registry.len(),
        registry[round_id] == tree.root(),
        tree.holds(identity),
    ensures
        verify_spec(registry, identity, round_id, tree.witness(identity)),
        siblings_sized(tree.witness(identity)),
{
    lemma_witness_leads_to_root(tree, identity);
}

} // verus!
