//! Addresses derived from fixed tags and caller-visible data: the program's
//! signing authority, and the place of each claimant's issuance record.

use vstd::prelude::*;
use solana_program::pubkey::Pubkey;

verus! {

/// The tag of the signing authority: the text `mint_authority`.
pub const AUTHORITY_TAG: [u8; 14] = [
    0x6d, 0x69, 0x6e, 0x74, 0x5f, 0x61, 0x75, 0x74, 0x68, 0x6f, 0x72, 0x69, 0x74, 0x79,
];

/// The tag of the records that hold a reference: the text `is_minted_ext`.
pub const EXTENDED_RECORD_TAG: [u8; 13] = [
    0x69, 0x73, 0x5f, 0x6d, 0x69, 0x6e, 0x74, 0x65, 0x64, 0x5f, 0x65, 0x78, 0x74,
];

/// The tag of the earlier records: the text `minted`.
pub const RECORD_TAG: [u8; 6] = [0x6d, 0x69, 0x6e, 0x74, 0x65, 0x64];

/// The tag of a descriptive record: the text `metadata`.
pub const METADATA_TAG: [u8; 8] = [0x6d, 0x65, 0x74, 0x61, 0x64, 0x61, 0x74, 0x61];

/// The tag that marks an edition record: the text `edition`.
pub const EDITION_TAG: [u8; 7] = [0x65, 0x64, 0x69, 0x74, 0x69, 0x6f, 0x6e];

/// The address and bump seed that the host derives for `seeds` under
/// `program_id`, or `None` where it derives none.
pub uninterp spec fn program_address(seeds: Seq<Seq<u8>>, program_id: Seq<u8>) -> Option<
    (Seq<u8>, u8),
>;

/// The address that a base-58 text stands for, or `None` where the text is
/// not the base-58 form of 32 bytes.
pub uninterp spec fn base58_address(text: Seq<char>) -> Option<Seq<u8>>;

/// An address together with the bump seed that completes its derivation.
#[derive(Clone, Copy, Debug, PartialEq, Eq)]
pub struct Derivation {
    pub address: [u8; 32],
    pub bump: u8,
}

/// An exec result says what a named derivation says.
pub open spec fn derivation_is(found: Option<Derivation>, named: Option<(Seq<u8>, u8)>) -> bool {
    match found {
        Some(d) => named == Some((d.address@, d.bump)),
        None => named is None,
    }
}

/// A decoded address says what the named decoding says.
pub open spec fn address_is(found: Option<[u8; 32]>, named: Option<Seq<u8>>) -> bool {
    match found {
        Some(a) => named == Some(a@),
        None => named is None,
    }
}

/// Calls `Pubkey::try_find_program_address` of `solana_program` with the
/// seeds as slices. Trusted: the address and bump seed that come back, or
/// their absence, are a function of the seeds and the program id alone.
#[verifier::external_body]
fn find_program_address(seeds: &Vec<Vec<u8>>, program_id: &[u8; 32]) -> (found: Option<Derivation>)
    ensures
        derivation_is(found, program_address(seeds.deep_view(), program_id@)),
{
    let mut parts: Vec<&[u8]> = Vec::new();
    for seed in seeds.iter() {
        parts.push(seed.as_slice());
    }
    match Pubkey::try_find_program_address(&parts, &Pubkey::new_from_array(*program_id)) {
        Some((address, bump)) => Some(Derivation { address: address.to_bytes(), bump }),
        None => None,
    }
}

/// Calls `Pubkey::try_from` of `solana_program` on a text. Trusted: the
/// bytes that come back, or their absence, are a function of the text alone.
#[verifier::external_body]
fn decode_base58(text: &str) -> (found: Option<[u8; 32]>)
    ensures
        address_is(found, base58_address(text@)),
{
    match Pubkey::try_from(text) {
        Ok(key) => Some(key.to_bytes()),
        Err(_) => None,
    }
}

/// The seeds of a signature: the seeds of the derivation, then the bump seed.
pub open spec fn signature_spec(seeds: Seq<Seq<u8>>, bump: u8) -> Seq<Seq<u8>> {
    seeds.push(seq![bump])
}

/// The seeds from which the authority is derived.
pub open spec fn authority_seeds() -> Seq<Seq<u8>> {
    seq![AUTHORITY_TAG@]
}

/// The seeds from which a claimant's record is derived: a tag that sets the
/// address space, the round, and the claimant.
pub open spec fn record_seeds(domain_tag: Seq<u8>, round: Seq<u8>, identity: Seq<u8>) -> Seq<
    Seq<u8>,
> {
    seq![domain_tag, round, identity]
}

/// The address of the signing authority of `program_id`.
pub open spec fn authority_address_spec(program_id: Seq<u8>) -> Option<(Seq<u8>, u8)> {
    program_address(authority_seeds(), program_id)
}

/// The address of the record of `identity` in `round` under `domain_tag`.
pub open spec fn record_address_spec(
    program_id: Seq<u8>,
    domain_tag: Seq<u8>,
    round: Seq<u8>,
    identity: Seq<u8>,
) -> Option<(Seq<u8>, u8)> {
    program_address(record_seeds(domain_tag, round, identity), program_id)
}

/// A round as the one byte that the later schemas derive from.
pub open spec fn round_byte(round_id: u8) -> Seq<u8> {
    seq![round_id]
}

/// The `count` low bytes of `value`, the lowest first.
pub open spec fn le_bytes(value: nat, count: nat) -> Seq<u8>
    decreases count,
{
    if count == 0 {
        Seq::empty()
    } else {
        seq![(value % 256) as u8] + le_bytes(value / 256, (count - 1) as nat)
    }
}

/// A round as the eight bytes that the first schema derives from.
pub open spec fn round_wide(round_id: u64) -> Seq<u8> {
    le_bytes(round_id as nat, 8)
}

/// Copies a byte string.
pub fn bytes_of(source: &[u8]) -> (copy: Vec<u8>)
    ensures
        copy@ == source@,
{
    let mut copy: Vec<u8> = Vec::with_capacity(source.len());
    let mut i: usize = 0;
    while i < source.len()
        invariant
            i <= source@.len(),
            copy@ == source@.take(i as int),
        decreases source@.len() - i,
    {
        copy.push(source[i]);
        assert(copy@ =~= source@.take(i + 1));
        i += 1;
    }
    assert(source@.take(i as int) =~= source@);
    copy
}

/// The seed of a round in the schemas that use one byte.
pub fn round_byte_seed(round_id: u8) -> (seed: Vec<u8>)
    ensures
        seed@ == round_byte(round_id),
{
    let seed: Vec<u8> = vec![round_id];
    assert(seed@ =~= round_byte(round_id));
    seed
}

/// The seed of a round in the schema that uses eight bytes, low byte first.
pub fn round_wide_seed(round_id: u64) -> (seed: Vec<u8>)
    ensures
        seed@ == round_wide(round_id),
{
    let mut seed: Vec<u8> = Vec::with_capacity(8);
    let mut rest: u64 = round_id;
    let mut i: usize = 0;
    while i < 8
        invariant
            i <= 8,
            seed@.len() == i,
            round_wide(round_id) == seed@ + le_bytes(rest as nat, (8 - i) as nat),
        decreases 8 - i,
    {
        let low: u8 = (rest % 256) as u8;
        proof {
            let tail = le_bytes(rest as nat / 256, (8 - i - 1) as nat);
            assert(le_bytes(rest as nat, (8 - i) as nat) == seq![low] + tail);
            assert(seed@.push(low) + tail =~= seed@ + (seq![low] + tail));
        }
        seed.push(low);
        rest = rest / 256;
        i += 1;
    }
    assert(le_bytes(rest as nat, 0) =~= Seq::<u8>::empty());
    assert(seed@ + Seq::<u8>::empty() =~= seed@);
    seed
}

/// Derives the address and bump seed for `seeds` under `program_id`.
pub fn derive_address(seeds: &Vec<Vec<u8>>, program_id: &[u8; 32]) -> (found: Option<Derivation>)
    ensures
        derivation_is(found, program_address(seeds.deep_view(), program_id@)),
{
    find_program_address(seeds, program_id)
}

/// Reads an address from its base-58 text.
pub fn parse_address(text: &str) -> (found: Option<[u8; 32]>)
    ensures
        address_is(found, base58_address(text@)),
{
    decode_base58(text)
}

/// Derives the signing authority of `program_id` from its one fixed tag.
pub fn authority_address(program_id: &[u8; 32]) -> (found: Option<Derivation>)
    ensures
        derivation_is(found, authority_address_spec(program_id@)),
{
    let seeds: Vec<Vec<u8>> = vec![bytes_of(AUTHORITY_TAG.as_slice())];
    assert(seeds.deep_view() =~~= authority_seeds());
    find_program_address(&seeds, program_id)
}

/// Derives the address at which the record of `identity` in the round with
/// seed `round` lives, in the address space that `domain_tag` sets.
pub fn record_address(
    program_id: &[u8; 32],
    domain_tag: &[u8],
    round: &[u8],
    identity: &[u8; 32],
) -> (found: Option<Derivation>)
    ensures
        derivation_is(found, record_address_spec(program_id@, domain_tag@, round@, identity@)),
{
    let seeds: Vec<Vec<u8>> = vec![
        bytes_of(domain_tag),
        bytes_of(round),
        bytes_of(identity.as_slice()),
    ];
    assert(seeds.deep_view() =~~= record_seeds(domain_tag@, round@, identity@));
    find_program_address(&seeds, program_id)
}

/// The seeds with which a derived address signs: those of its derivation,
/// then its bump seed. They are computed on each use and never stored.
pub fn sign(seeds: Vec<Vec<u8>>, bump: u8) -> (proof_seeds: Vec<Vec<u8>>)
    ensures
        proof_seeds.deep_view() == signature_spec(seeds.deep_view(), bump),
{
    let mut proof_seeds = seeds;
    let last: Vec<u8> = vec![bump];
    proof_seeds.push(last);
    assert(proof_seeds.deep_view() =~~= signature_spec(seeds.deep_view(), bump));
    proof_seeds
}

/// What the authority signs with: its one tag, then the bump seed of its
/// address; nothing where no address is derived.
pub open spec fn authority_signature_spec(program_id: Seq<u8>) -> Option<Seq<Seq<u8>>> {
    match authority_address_spec(program_id) {
        Some(pair) => Some(signature_spec(authority_seeds(), pair.1)),
        None => None,
    }
}

/// A signature says what `expected` says.
pub open spec fn signature_is(found: Option<Vec<Vec<u8>>>, expected: Option<Seq<Seq<u8>>>) -> bool {
    match found {
        Some(seeds) => expected == Some(seeds.deep_view()),
        None => expected is None,
    }
}

/// The authority's signature for `program_id`: the seeds that prove that the
/// signer knows how the authority's address is derived. It is computed anew
/// on every call, from the fixed tag alone, and holds no secret.
pub fn authority_signature(program_id: &[u8; 32]) -> (found: Option<Vec<Vec<u8>>>)
    ensures
        signature_is(found, authority_signature_spec(program_id@)),
{
    match authority_address(program_id) {
        Some(derivation) => {
            let seeds: Vec<Vec<u8>> = vec![bytes_of(AUTHORITY_TAG.as_slice())];
            assert(seeds.deep_view() =~~= authority_seeds());
            Some(sign(seeds, derivation.bump))
        },
        None => None,
    }
}

/// Derivation is a function of its inputs: whenever and wherever the
/// address of a record is derived twice from one tag, round, claimant and
/// program, the two results are the same address and the same bump seed.
pub proof fn law_record_address_deterministic(
    program_id: Seq<u8>,
    domain_tag: Seq<u8>,
    round: Seq<u8>,
    identity: Seq<u8>,
    once: Option<Derivation>,
    again: Option<Derivation>,
)
    requires
        derivation_is(once, record_address_spec(program_id, domain_tag, round, identity)),
        derivation_is(again, record_address_spec(program_id, domain_tag, round, identity)),
    ensures
        once == again,
{
    if once is Some {
        assert(once->Some_0.address =~= again->Some_0.address);
    }
}

} // verus!
