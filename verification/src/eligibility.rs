//! The checks that every request with a proof passes before anything is created:
//! the claimant is in the round's tree, and no record says that the claimant
//! was served before.

use vstd::prelude::*;
use crate::account::{AccountView, HostPrograms};
use crate::address::{
    authority_address, authority_address_spec, base58_address, bytes_of, derive_address,
    parse_address,
    program_address, record_address, record_address_spec, EDITION_TAG, METADATA_TAG,
};
use crate::error::IssuanceError;
use crate::hash_chain::{leaf, leaf_spec, leaf_with_position, leaf_with_position_spec};
use crate::ledger::{exists_spec, record_exists};
use crate::membership::{fold_path, nodes, verify_merkle_proof};
use crate::payload::{header_len, position_of, position_spec, proof_of, siblings_spec, well_shaped};
use crate::plan::{RecordSchema, TokenFlavor};
use crate::registry::RoundRegistry;

verus! {

/// What is fixed when the program is deployed: its own address, the programs
/// of its host, and the roots of its rounds.
pub struct Deployment {
    pub program_id: [u8; 32],
    pub programs: HostPrograms,
    pub registry: RoundRegistry,
}

/// The accounts of a collection that a request has to name correctly.
#[derive(Clone, Copy, Debug)]
pub struct CollectionPins {
    pub mint: usize,
    pub metadata: usize,
    pub master_edition: usize,
    pub metadata_program: usize,
    /// The address of the collection's mint, in base 58.
    pub expected_mint: &'static str,
}

/// How one kind of request lays out its accounts and its payload.
#[derive(Clone, Copy, Debug)]
pub struct RequestShape {
    /// The number of accounts that the request reads.
    pub accounts: usize,
    pub mint: usize,
    pub payer: usize,
    pub authority: usize,
    pub record: usize,
    /// The round is read and checked before the accounts are.
    pub header_first: bool,
    /// The payload carries the claimant's position, which enters the leaf.
    pub positioned: bool,
    pub schema: RecordSchema,
    /// The account that has to be a token program, where one is checked.
    pub token_program: Option<(usize, TokenFlavor)>,
    pub collection: Option<CollectionPins>,
}

/// What the checks establish for the steps that follow.
#[derive(Clone, Copy, Debug, PartialEq, Eq)]
pub struct Clearance {
    pub round_id: u8,
    pub position: Option<u16>,
    pub authority_bump: u8,
    pub record_bump: u8,
}

impl RequestShape {
    /// Every position lies among the accounts that are read, and the record
    /// is none of the other accounts that the checks look at.
    pub open spec fn well_formed(self) -> bool {
        &&& self.mint < self.accounts
        &&& self.payer < self.accounts
        &&& self.authority < self.accounts
        &&& self.record < self.accounts
        &&& self.record != self.mint
        &&& self.record != self.payer
        &&& self.record != self.authority
        &&& (self.token_program matches Some(pin) ==> pin.0 < self.accounts && pin.0
            != self.record)
        &&& (self.collection matches Some(pins) ==> {
            &&& pins.mint < self.accounts
            &&& pins.metadata < self.accounts
            &&& pins.master_edition < self.accounts
            &&& pins.metadata_program < self.accounts
            &&& pins.mint != self.record
            &&& pins.metadata != self.record
            &&& pins.master_edition != self.record
            &&& pins.metadata_program != self.record
        })
    }
}

/// The address of the token program of a flavor.
pub open spec fn flavor_id(programs: HostPrograms, flavor: TokenFlavor) -> [u8; 32] {
    match flavor {
        TokenFlavor::Classic => programs.token,
        TokenFlavor::Extended => programs.token_2022,
    }
}

/// The first of two findings, if there is one.
pub open spec fn first(a: Option<IssuanceError>, b: Option<IssuanceError>) -> Option<
    IssuanceError,
> {
    if a is Some {
        a
    } else {
        b
    }
}

/// The header is rejected: too short to hold a round, or the round is not
/// in the registry.
pub open spec fn header_error(registry: Seq<Seq<u8>>, data: Seq<u8>, positioned: bool) -> Option<
    IssuanceError,
> {
    if data.len() < header_len(positioned) {
        Some(IssuanceError::ParseError)
    } else if data[0] as int >= registry.len() {
        Some(IssuanceError::InvalidRound)
    } else {
        None
    }
}

/// The mint or the payer did not sign.
pub open spec fn signers_error(shape: RequestShape, accounts: Seq<AccountView>) -> Option<
    IssuanceError,
> {
    if !accounts[shape.mint as int].is_signer || !accounts[shape.payer as int].is_signer {
        Some(IssuanceError::AuthorizationMissing)
    } else {
        None
    }
}

/// An account with a fixed address is not at that address.
pub open spec fn pins_error(
    shape: RequestShape,
    programs: HostPrograms,
    accounts: Seq<AccountView>,
) -> Option<IssuanceError> {
    if shape.token_program matches Some(pin) && accounts[pin.0 as int].key@ != flavor_id(
        programs,
        pin.1,
    )@ {
        Some(IssuanceError::DerivationMismatch)
    } else if shape.collection matches Some(pins) && base58_address(pins.expected_mint@)
        != Some(accounts[pins.mint as int].key@) {
        Some(IssuanceError::DerivationMismatch)
    } else {
        None
    }
}

/// The account is at the address that is derived for `seeds`.
pub open spec fn derived_at(named: Option<(Seq<u8>, u8)>, account: AccountView) -> bool {
    named matches Some(pair) && pair.0 == account.key@
}

/// The account that was passed as the authority is not the authority.
pub open spec fn authority_error(program_id: Seq<u8>, account: AccountView) -> Option<
    IssuanceError,
> {
    if derived_at(authority_address_spec(program_id), account) {
        None
    } else {
        Some(IssuanceError::DerivationMismatch)
    }
}

/// The leaf of a claimant, with the position where the request has one.
pub open spec fn claimant_leaf(identity: Seq<u8>, position: Option<u16>) -> Seq<u8> {
    match position {
        Some(p) => leaf_with_position_spec(identity, p),
        None => leaf_spec(identity),
    }
}

/// The position that the payload carries, where its layout has one.
pub open spec fn position_in(data: Seq<u8>, positioned: bool) -> Option<u16> {
    if positioned {
        Some(position_spec(data))
    } else {
        None
    }
}

/// The proof does not lead from the claimant's leaf to the round's root.
pub open spec fn membership_error(
    registry: Seq<Seq<u8>>,
    round_id: int,
    leaf: Seq<u8>,
    siblings: Seq<Seq<u8>>,
) -> Option<IssuanceError> {
    if !(0 <= round_id < registry.len()) {
        Some(IssuanceError::InvalidRound)
    } else if fold_path(leaf, siblings) != registry[round_id] {
        Some(IssuanceError::ProofInvalid)
    } else {
        None
    }
}

/// The address at which the record of a claimant is expected.
pub open spec fn expected_record(
    program_id: Seq<u8>,
    schema: RecordSchema,
    round: u64,
    identity: Seq<u8>,
) -> Option<(Seq<u8>, u8)> {
    record_address_spec(program_id, schema.tag_spec(), schema.round_spec(round), identity)
}

/// The record account is not at the derived address, or a record exists.
pub open spec fn ledger_error(
    program_id: Seq<u8>,
    schema: RecordSchema,
    round: u64,
    identity: Seq<u8>,
    record: AccountView,
) -> Option<IssuanceError> {
    if !derived_at(expected_record(program_id, schema, round, identity), record) {
        Some(IssuanceError::DerivationMismatch)
    } else if exists_spec(record, program_id) {
        Some(IssuanceError::AlreadyIssued)
    } else {
        None
    }
}

/// The seeds of a collection's descriptive record.
pub open spec fn collection_metadata_seeds(program: Seq<u8>, mint: Seq<u8>) -> Seq<Seq<u8>> {
    seq![METADATA_TAG@, program, mint]
}

/// The seeds of a collection's master edition.
pub open spec fn collection_edition_seeds(program: Seq<u8>, mint: Seq<u8>) -> Seq<Seq<u8>> {
    seq![METADATA_TAG@, program, mint, EDITION_TAG@]
}

/// The collection's records are not at the addresses derived from its mint.
pub open spec fn collection_error(pins: Option<CollectionPins>, accounts: Seq<AccountView>) -> Option<
    IssuanceError,
> {
    match pins {
        None => None,
        Some(pins) => {
            let program = accounts[pins.metadata_program as int].key@;
            let mint = accounts[pins.mint as int].key@;
            if !derived_at(
                program_address(collection_metadata_seeds(program, mint), program),
                accounts[pins.metadata as int],
            ) {
                Some(IssuanceError::DerivationMismatch)
            } else if !derived_at(
                program_address(collection_edition_seeds(program, mint), program),
                accounts[pins.master_edition as int],
            ) {
                Some(IssuanceError::DerivationMismatch)
            } else {
                None
            }
        },
    }
}

/// The first check that a request fails, in the order in which the checks
/// are made; `None` where it passes them all.
pub open spec fn rejection(
    shape: RequestShape,
    deployment: Deployment,
    accounts: Seq<AccountView>,
    data: Seq<u8>,
) -> Option<IssuanceError> {
    let registry = deployment.registry@;
    let program_id = deployment.program_id@;
    let header = header_error(registry, data, shape.positioned);
    let identity = accounts[shape.payer as int].key@;
    first(
        if shape.header_first {
            header
        } else {
            None
        },
        first(
            if accounts.len() < shape.accounts {
                Some(IssuanceError::NotEnoughAccounts)
            } else {
                None
            },
            first(
                signers_error(shape, accounts),
                first(
                    pins_error(shape, deployment.programs, accounts),
                    first(
                        authority_error(program_id, accounts[shape.authority as int]),
                        first(
                            header,
                            first(
                                if well_shaped(data, shape.positioned) {
                                    None
                                } else {
                                    Some(IssuanceError::ParseError)
                                },
                                first(
                                    membership_error(
                                        registry,
                                        data[0] as int,
                                        claimant_leaf(identity, position_in(data, shape.positioned)),
                                        siblings_spec(data, header_len(shape.positioned)),
                                    ),
                                    first(
                                        ledger_error(
                                            program_id,
                                            shape.schema,
                                            data[0] as u64,
                                            identity,
                                            accounts[shape.record as int],
                                        ),
                                        collection_error(shape.collection, accounts),
                                    ),
                                ),
                            ),
                        ),
                    ),
                ),
            ),
        ),
    )
}

/// What a request that passes establishes: its round and position, and the
/// bump seeds of the authority and of the claimant's record.
pub open spec fn clearance_of(
    shape: RequestShape,
    deployment: Deployment,
    accounts: Seq<AccountView>,
    data: Seq<u8>,
) -> Clearance {
    Clearance {
        round_id: data[0],
        position: position_in(data, shape.positioned),
        authority_bump: authority_address_spec(deployment.program_id@)->Some_0.1,
        record_bump: expected_record(
            deployment.program_id@,
            shape.schema,
            data[0] as u64,
            accounts[shape.payer as int].key@,
        )->Some_0.1,
    }
}

/// A finding, as the result of a check.
pub open spec fn finding<T>(r: Result<T, IssuanceError>, expected: Option<IssuanceError>) -> bool {
    match r {
        Ok(_) => expected is None,
        Err(e) => expected == Some(e),
    }
}

/// Reads the round from the header and looks it up.
pub fn check_header(registry: &RoundRegistry, data: &[u8], positioned: bool) -> (r: Result<
    u8,
    IssuanceError,
>)
    ensures
        finding(r, header_error(registry@, data@, positioned)),
        r is Ok ==> r->Ok_0 == data@[0],
{
    let needed: usize = if positioned {
        3
    } else {
        1
    };
    if data.len() < needed {
        return Err(IssuanceError::ParseError);
    }
    let round_id: u8 = data[0];
    if round_id as usize >= registry.len() {
        return Err(IssuanceError::InvalidRound);
    }
    Ok(round_id)
}

/// Checks that the mint and the payer signed.
pub fn check_signers(shape: &RequestShape, accounts: &[AccountView]) -> (r: Result<
    (),
    IssuanceError,
>)
    requires
        shape.well_formed(),
        accounts@.len() >= shape.accounts,
    ensures
        finding(r, signers_error(*shape, accounts@)),
{
    if !accounts[shape.mint].is_signer {
        return Err(IssuanceError::AuthorizationMissing);
    }
    if !accounts[shape.payer].is_signer {
        return Err(IssuanceError::AuthorizationMissing);
    }
    Ok(())
}

/// Checks the accounts whose addresses are fixed.
pub fn check_pins(shape: &RequestShape, programs: &HostPrograms, accounts: &[AccountView]) -> (r:
    Result<(), IssuanceError>)
    requires
        shape.well_formed(),
        accounts@.len() >= shape.accounts,
    ensures
        finding(r, pins_error(*shape, *programs, accounts@)),
{
    match shape.token_program {
        Some(pin) => {
            let expected = match pin.1 {
                TokenFlavor::Classic => programs.token,
                TokenFlavor::Extended => programs.token_2022,
            };
            if !accounts[pin.0].is_at(&expected) {
                return Err(IssuanceError::DerivationMismatch);
            }
        },
        None => {},
    }
    match shape.collection {
        Some(pins) => {
            match parse_address(pins.expected_mint) {
                Some(expected) => {
                    if !accounts[pins.mint].is_at(&expected) {
                        return Err(IssuanceError::DerivationMismatch);
                    }
                },
                None => {
                    return Err(IssuanceError::DerivationMismatch);
                },
            }
        },
        None => {},
    }
    Ok(())
}

/// Checks that `account` is the signing authority, and gives its bump seed.
pub fn check_authority(program_id: &[u8; 32], account: &AccountView) -> (r: Result<
    u8,
    IssuanceError,
>)
    ensures
        finding(r, authority_error(program_id@, *account)),
        r is Ok ==> r->Ok_0 == authority_address_spec(program_id@)->Some_0.1,
{
    match authority_address(program_id) {
        Some(derivation) => {
            if account.is_at(&derivation.address) {
                Ok(derivation.bump)
            } else {
                Err(IssuanceError::DerivationMismatch)
            }
        },
        None => Err(IssuanceError::DerivationMismatch),
    }
}

/// The first transition of an attempt: the proof is checked against the
/// round's root. It runs the whole path and compares once, at the end.
pub fn check_membership(
    registry: &RoundRegistry,
    round_id: usize,
    leaf: [u8; 32],
    proof: &Vec<[u8; 32]>,
) -> (r: Result<(), IssuanceError>)
    ensures
        finding(r, membership_error(registry@, round_id as int, leaf@, nodes(proof@))),
{
    let root = registry.root_for(round_id)?;
    if verify_merkle_proof(leaf, proof, root) {
        Ok(())
    } else {
        Err(IssuanceError::ProofInvalid)
    }
}

/// The second transition of an attempt: the record's address is derived,
/// the account is held against it, and the ledger is asked whether a record
/// exists. Gives the bump seed of the record's address.
pub fn check_ledger(
    program_id: &[u8; 32],
    schema: RecordSchema,
    round: u64,
    identity: &[u8; 32],
    record: &AccountView,
) -> (r: Result<u8, IssuanceError>)
    ensures
        finding(r, ledger_error(program_id@, schema, round, identity@, *record)),
        r is Ok ==> r->Ok_0 == expected_record(program_id@, schema, round, identity@)->Some_0.1,
{
    let tag = schema.tag();
    let seed = schema.round_seed(round);
    match record_address(program_id, tag.as_slice(), seed.as_slice(), identity) {
        Some(derivation) => {
            if !record.is_at(&derivation.address) {
                Err(IssuanceError::DerivationMismatch)
            } else if record_exists(record, program_id) {
                Err(IssuanceError::AlreadyIssued)
            } else {
                Ok(derivation.bump)
            }
        },
        None => Err(IssuanceError::DerivationMismatch),
    }
}

/// Derives an address of the collection and holds an account against it.
fn check_derived(seeds: &Vec<Vec<u8>>, program: &[u8; 32], account: &AccountView) -> (r: bool)
    ensures
        r == derived_at(program_address(seeds.deep_view(), program@), *account),
{
    match derive_address(seeds, program) {
        Some(derivation) => account.is_at(&derivation.address),
        None => false,
    }
}

/// Checks that the collection's records belong to the collection's mint.
pub fn check_collection(pins: &Option<CollectionPins>, accounts: &[AccountView]) -> (r: Result<
    (),
    IssuanceError,
>)
    requires
        pins matches Some(p) ==> p.mint < accounts@.len() && p.metadata < accounts@.len()
            && p.master_edition < accounts@.len() && p.metadata_program < accounts@.len(),
    ensures
        finding(r, collection_error(*pins, accounts@)),
{
    match pins {
        None => Ok(()),
        Some(pins) => {
            let program = &accounts[pins.metadata_program].key;
            let mint = &accounts[pins.mint].key;
            let metadata_seeds: Vec<Vec<u8>> = vec![
                bytes_of(METADATA_TAG.as_slice()),
                bytes_of(program.as_slice()),
                bytes_of(mint.as_slice()),
            ];
            assert(metadata_seeds.deep_view() =~~= collection_metadata_seeds(program@, mint@));
            if !check_derived(&metadata_seeds, program, &accounts[pins.metadata]) {
                return Err(IssuanceError::DerivationMismatch);
            }
            let edition_seeds: Vec<Vec<u8>> = vec![
                bytes_of(METADATA_TAG.as_slice()),
                bytes_of(program.as_slice()),
                bytes_of(mint.as_slice()),
                bytes_of(EDITION_TAG.as_slice()),
            ];
            assert(edition_seeds.deep_view() =~~= collection_edition_seeds(program@, mint@));
            if !check_derived(&edition_seeds, program, &accounts[pins.master_edition]) {
                return Err(IssuanceError::DerivationMismatch);
            }
            Ok(())
        },
    }
}

/// Runs the checks of a request in their order and stops at the first
/// that fails. Nothing is created here: a request that fails leaves no trace.
pub fn clear_request(shape: &RequestShape, deployment: &Deployment, accounts: &[AccountView], data: &[u8]) -> (r:
    Result<Clearance, IssuanceError>)
    requires
        shape.well_formed(),
    ensures
        finding(r, rejection(*shape, *deployment, accounts@, data@)),
        r is Ok ==> r->Ok_0 == clearance_of(*shape, *deployment, accounts@, data@),
{
    if shape.header_first {
        check_header(&deployment.registry, data, shape.positioned)?;
    }
    if accounts.len() < shape.accounts {
        return Err(IssuanceError::NotEnoughAccounts);
    }
    check_signers(shape, accounts)?;
    check_pins(shape, &deployment.programs, accounts)?;
    let authority_bump = check_authority(&deployment.program_id, &accounts[shape.authority])?;
    let round_id = check_header(&deployment.registry, data, shape.positioned)?;
    let proof = proof_of(data, shape.positioned)?;
    let identity = &accounts[shape.payer].key;
    let position = if shape.positioned {
        Some(position_of(data))
    } else {
        None
    };
    let claimant = match position {
        Some(p) => leaf_with_position(identity, p),
        None => leaf(identity),
    };
    check_membership(&deployment.registry, round_id as usize, claimant, &proof)?;
    let record_bump = check_ledger(
        &deployment.program_id,
        shape.schema,
        round_id as u64,
        identity,
        &accounts[shape.record],
    )?;
    check_collection(&shape.collection, accounts)?;
    Ok(Clearance { round_id, position, authority_bump, record_bump })
}

/// A payload that names a round which the registry does not hold, the one
/// just past the last among them, is turned down whatever proof it carries: the finding is `InvalidRound` wherever the checks that are made
/// before the round is read pass, and it is never a verdict on the proof or on
/// the ledger.
pub proof fn law_round_out_of_range(
    shape: RequestShape,
    deployment: Deployment,
    accounts: Seq<AccountView>,
    data: Seq<u8>,
)
    requires
        data.len() >= header_len(shape.positioned),
        data[0] as int >= deployment.registry@.len(),
    ensures
        header_error(deployment.registry@, data, shape.positioned) == Some(
            IssuanceError::InvalidRound,
        ),
        rejection(shape, deployment, accounts, data) is Some,
        rejection(shape, deployment, accounts, data) != Some(IssuanceError::ProofInvalid),
        rejection(shape, deployment, accounts, data) != Some(IssuanceError::AlreadyIssued),
        shape.header_first ==> rejection(shape, deployment, accounts, data) == Some(
            IssuanceError::InvalidRound,
        ),
        accounts.len() >= shape.accounts && signers_error(shape, accounts) is None && pins_error(
            shape,
            deployment.programs,
            accounts,
        ) is None && authority_error(deployment.program_id@, accounts[shape.authority as int])
            is None ==> rejection(shape, deployment, accounts, data) == Some(
            IssuanceError::InvalidRound,
        ),
{
}

/// The record is allocated at the address that is checked. Where a request
/// passes, the record's account is at the address derived from the schema's
/// tag, the round and the payer, and the seeds with which its allocation is
/// signed are the seeds of that derivation, followed by its bump seed.
pub proof fn law_record_signed_for_checked_address(
    shape: RequestShape,
    deployment: Deployment,
    accounts: Seq<AccountView>,
    data: Seq<u8>,
)
    requires
        rejection(shape, deployment, accounts, data) is None,
    ensures
        ({
            let bump = clearance_of(shape, deployment, accounts, data).record_bump;
            let round = data[0] as u64;
            let seeds = crate::address::record_seeds(
                shape.schema.tag_spec(),
                shape.schema.round_spec(round),
                accounts[shape.payer as int].key@,
            );
            &&& program_address(seeds, deployment.program_id@) == Some(
                (accounts[shape.record as int].key@, bump),
            )
            &&& crate::plan::signer_seeds_spec(
                crate::plan::Signer::Record {
                    schema: shape.schema,
                    round,
                    claimant: shape.payer,
                    bump,
                },
                accounts,
            ) == crate::address::signature_spec(seeds, bump)
        }),
{
}

/// The ledger is asked only after the proof was accepted: a request that is
/// turned down with `AlreadyIssued` names a round of the registry and carries a
/// proof that leads from the claimant's leaf to that round's root.
pub proof fn law_ledger_asked_after_proof(
    shape: RequestShape,
    deployment: Deployment,
    accounts: Seq<AccountView>,
    data: Seq<u8>,
)
    requires
        rejection(shape, deployment, accounts, data) == Some(IssuanceError::AlreadyIssued),
    ensures
        well_shaped(data, shape.positioned),
        (data[0] as int) < deployment.registry@.len(),
        fold_path(
            claimant_leaf(
                accounts[shape.payer as int].key@,
                position_in(data, shape.positioned),
            ),
            siblings_spec(data, header_len(shape.positioned)),
        ) == deployment.registry@[data[0] as int],
        exists_spec(accounts[shape.record as int], deployment.program_id@),
{
}

/// Nobody is served twice. Take a request that passes every check. Once a
/// record exists at the claimant's address for the round, the very same
/// request is turned down with `AlreadyIssued`. Nothing is handed out to do
/// then, so the record stays as it is.
pub proof fn law_replay_rejected(
    shape: RequestShape,
    deployment: Deployment,
    accounts: Seq<AccountView>,
    data: Seq<u8>,
    written: AccountView,
)
    requires
        shape.well_formed(),
        rejection(shape, deployment, accounts, data) is None,
        written.key == accounts[shape.record as int].key,
        written.is_signer == accounts[shape.record as int].is_signer,
        exists_spec(written, deployment.program_id@),
    ensures
        rejection(shape, deployment, accounts.update(shape.record as int, written), data)
            == Some(IssuanceError::AlreadyIssued),
{
    let again = accounts.update(shape.record as int, written);
    assert(again.len() == accounts.len());
    assert(again[shape.mint as int] == accounts[shape.mint as int]);
    assert(again[shape.payer as int] == accounts[shape.payer as int]);
    assert(again[shape.authority as int] == accounts[shape.authority as int]);
    assert(again[shape.record as int] == written);
    assert(collection_error(shape.collection, again) == collection_error(
        shape.collection,
        accounts,
    ));
}

/// Requests do not stand in each other's way. What the checks find for a
/// request, and what they establish for its plan, depends on no stored bytes,
/// owner or balance but those of the request's own record. So serving another claimant or another round, which writes the
/// record at its own address and nothing else, leaves the answer as it was.
pub proof fn law_independent_of_other_records(
    shape: RequestShape,
    deployment: Deployment,
    accounts: Seq<AccountView>,
    data: Seq<u8>,
    other: int,
    changed: AccountView,
)
    requires
        shape.well_formed(),
        0 <= other < accounts.len(),
        other != shape.record,
        changed.key == accounts[other].key,
        changed.is_signer == accounts[other].is_signer,
    ensures
        rejection(shape, deployment, accounts.update(other, changed), data) == rejection(
            shape,
            deployment,
            accounts,
            data,
        ),
        accounts.len() >= shape.accounts ==> clearance_of(
            shape,
            deployment,
            accounts.update(other, changed),
            data,
        ) == clearance_of(shape, deployment, accounts, data),
{
    let after = accounts.update(other, changed);
    assert(after.len() == accounts.len());
    if accounts.len() >= shape.accounts {
        assert(after[shape.record as int] == accounts[shape.record as int]);
        assert(after[shape.mint as int].is_signer == accounts[shape.mint as int].is_signer);
        assert(after[shape.payer as int].is_signer == accounts[shape.payer as int].is_signer);
        assert(after[shape.payer as int].key == accounts[shape.payer as int].key);
        assert(after[shape.authority as int].key == accounts[shape.authority as int].key);
        assert(pins_error(shape, deployment.programs, after) == pins_error(
            shape,
            deployment.programs,
            accounts,
        )) by {
            if let Some(pin) = shape.token_program {
                assert(after[pin.0 as int].key == accounts[pin.0 as int].key);
            }
            if let Some(pins) = shape.collection {
                assert(after[pins.mint as int].key == accounts[pins.mint as int].key);
            }
        }
        assert(collection_error(shape.collection, after) == collection_error(
            shape.collection,
            accounts,
        )) by {
            if let Some(pins) = shape.collection {
                assert(after[pins.mint as int].key == accounts[pins.mint as int].key);
                assert(after[pins.metadata as int].key == accounts[pins.metadata as int].key);
                assert(after[pins.master_edition as int].key
                    == accounts[pins.master_edition as int].key);
                assert(after[pins.metadata_program as int].key
                    == accounts[pins.metadata_program as int].key);
            }
        }
    }
}

} // verus!
