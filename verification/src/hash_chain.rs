//! The pairwise hash combinator from which Merkle paths are built.

use vstd::prelude::*;

verus! {

/// The SHA-256 digest of `data`, as a sequence of 32 bytes.
pub uninterp spec fn sha256_digest(data: Seq<u8>) -> Seq<u8>;

/// Calls `solana_program::hash::hash` and takes the bytes of the `Hash` it
/// returns. Trusted: the result is the SHA-256 digest of `data`, a function of
/// `data` alone.
#[verifier::external_body]
fn sha256(data: &[u8]) -> (digest: [u8; 32])
    ensures
        digest@ == sha256_digest(data@),
{
    solana_program::hash::hash(data).to_bytes()
}

/// The digest as this library reads it: always 32 bytes long. It is
/// `sha256_digest(data)` wherever that has 32 bytes, as every digest that
/// [`hash`] returns does.
pub open spec fn hash_spec(data: Seq<u8>) -> Seq<u8> {
    let digest = sha256_digest(data);
    if digest.len() == 32 {
        digest
    } else {
        Seq::new(32, |i: int| 0u8)
    }
}

/// Hashes a byte string.
pub fn hash(data: &[u8]) -> (digest: [u8; 32])
    ensures
        digest@ == hash_spec(data@),
        digest@ == sha256_digest(data@),
{
    sha256(data)
}

/// Dictionary order on two byte strings, read from index `i` on: the first
/// byte that differs decides, and a string comes before those it begins.
pub open spec fn lex_le_from(a: Seq<u8>, b: Seq<u8>, i: int) -> bool
    decreases a.len() - i,
{
    if i < 0 || i >= a.len() {
        true
    } else if i >= b.len() {
        false
    } else if a[i] != b[i] {
        a[i] < b[i]
    } else {
        lex_le_from(a, b, i + 1)
    }
}

/// `a` comes before `b` in dictionary order, or equals it.
pub open spec fn lex_le(a: Seq<u8>, b: Seq<u8>) -> bool {
    lex_le_from(a, b, 0)
}

/// The leaf that stands for a claimant: the digest of the identity alone.
pub open spec fn leaf_spec(identity: Seq<u8>) -> Seq<u8> {
    hash_spec(identity)
}

/// The leaf of a claimant at a position: the digest of the identity followed
/// by the position, low byte first.
pub open spec fn leaf_with_position_spec(identity: Seq<u8>, position: u16) -> Seq<u8> {
    hash_spec(identity + seq![(position % 256) as u8, (position / 256) as u8])
}

/// Two nodes side by side, the smaller one first.
pub open spec fn ordered_pair(a: Seq<u8>, b: Seq<u8>) -> Seq<u8> {
    if lex_le(a, b) {
        a + b
    } else {
        b + a
    }
}

/// The parent of two nodes: the digest of the smaller followed by the larger.
pub open spec fn combine_spec(a: Seq<u8>, b: Seq<u8>) -> Seq<u8> {
    hash_spec(ordered_pair(a, b))
}

/// Two strings of which each comes before the other from `i` on have one
/// length and agree from `i` on.
pub proof fn lemma_lex_antisymmetric(a: Seq<u8>, b: Seq<u8>, i: int)
    requires
        0 <= i <= a.len(),
        i <= b.len(),
        lex_le_from(a, b, i),
        lex_le_from(b, a, i),
    ensures
        a.len() == b.len(),
        forall|j: int| i <= j < a.len() ==> a[j] == b[j],
    decreases a.len() - i,
{
    if i < a.len() {
        lemma_lex_antisymmetric(a, b, i + 1);
    }
}

/// Of two byte strings, one comes first.
pub proof fn lemma_lex_total(a: Seq<u8>, b: Seq<u8>, i: int)
    requires
        0 <= i <= a.len(),
        i <= b.len(),
    ensures
        lex_le_from(a, b, i) || lex_le_from(b, a, i),
    decreases a.len() - i,
{
    if i < a.len() && i < b.len() {
        lemma_lex_total(a, b, i + 1);
    }
}

/// The combinator is commutative: the parent of two nodes does not depend on
/// which of them is named first.
pub proof fn law_combine_commutative(a: Seq<u8>, b: Seq<u8>)
    ensures
        ordered_pair(a, b) == ordered_pair(b, a),
        combine_spec(a, b) == combine_spec(b, a),
{
    lemma_lex_total(a, b, 0);
    if lex_le(a, b) && lex_le(b, a) {
        lemma_lex_antisymmetric(a, b, 0);
        assert(a =~= b);
    }
}

/// Compares two digests in dictionary order.
pub fn hash_le(a: &[u8; 32], b: &[u8; 32]) -> (r: bool)
    ensures
        r == lex_le(a@, b@),
{
    let mut i: usize = 0;
    while i < 32
        invariant
            i <= 32,
            lex_le(a@, b@) == lex_le_from(a@, b@, i as int),
        decreases 32 - i,
    {
        if a[i] != b[i] {
            return a[i] < b[i];
        }
        i += 1;
    }
    true
}

/// Tells whether two digests hold the same bytes.
pub fn hash_eq(a: &[u8; 32], b: &[u8; 32]) -> (r: bool)
    ensures
        r == (a@ == b@),
{
    let mut i: usize = 0;
    while i < 32
        invariant
            i <= 32,
            forall|j: int| 0 <= j < i ==> a@[j] == b@[j],
        decreases 32 - i,
    {
        if a[i] != b[i] {
            return false;
        }
        i += 1;
    }
    assert(a@ =~= b@);
    true
}

/// Hashes a claimant's identity into its leaf.
pub fn leaf(identity: &[u8; 32]) -> (digest: [u8; 32])
    ensures
        digest@ == leaf_spec(identity@),
        digest@ == sha256_digest(identity@),
{
    hash(identity.as_slice())
}

/// Hashes a claimant's identity and position into its leaf.
pub fn leaf_with_position(identity: &[u8; 32], position: u16) -> (digest: [u8; 32])
    ensures
        digest@ == leaf_with_position_spec(identity@, position),
        digest@ == sha256_digest(
            identity@ + seq![(position % 256) as u8, (position / 256) as u8],
        ),
{
    let mut buffer: Vec<u8> = Vec::with_capacity(34);
    let mut i: usize = 0;
    while i < 32
        invariant
            i <= 32,
            buffer@ == identity@.subrange(0, i as int),
        decreases 32 - i,
    {
        buffer.push(identity[i]);
        assert(buffer@ =~= identity@.subrange(0, i + 1));
        i += 1;
    }
    buffer.push((position % 256) as u8);
    buffer.push((position / 256) as u8);
    assert(buffer@ =~= identity@ + seq![(position % 256) as u8, (position / 256) as u8]);
    hash(buffer.as_slice())
}

/// Combines two nodes into their parent, whichever order they come in.
pub fn combine(a: &[u8; 32], b: &[u8; 32]) -> (parent: [u8; 32])
    ensures
        parent@ == combine_spec(a@, b@),
        parent@ == sha256_digest(ordered_pair(a@, b@)),
{
    let a_first = hash_le(a, b);
    let mut buffer: [u8; 64] = [0u8; 64];
    let mut i: usize = 0;
    while i < 32
        invariant
            i <= 32,
            forall|j: int| 0 <= j < i ==> buffer@[j] == (if a_first { a@[j] } else { b@[j] }),
            forall|j: int| 0 <= j < i ==> buffer@[32 + j] == (if a_first { b@[j] } else { a@[j] }),
        decreases 32 - i,
    {
        if a_first {
            buffer[i] = a[i];
            buffer[32 + i] = b[i];
        } else {
            buffer[i] = b[i];
            buffer[32 + i] = a[i];
        }
        i += 1;
    }
    assert(buffer@ =~= ordered_pair(a@, b@));
    hash(buffer.as_slice())
}

} // verus!
