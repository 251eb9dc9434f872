//! Creates the programmable asset at a claimant's position in the second collection.

use vstd::prelude::*;
use crate::account::AccountView;
use crate::eligibility::{
    clear_request, clearance_of, rejection, Clearance, CollectionPins, Deployment, RequestShape,
};
use crate::error::IssuanceError;
use crate::pipeline::outcome_is;
use crate::plan::{
    allocates_record, creates_token, dimensions, ledger_once_after_creation, touches_ledger,
    writes_record, AssetStandard, Call, Creator, Owner, PrintSupply, RecordSchema, ReferenceSource,
    Signer, Step, TokenFlavor,
};

verus! {

/// Where the descriptive record stands among the accounts.
pub const METADATA: usize = 0;

/// Where the master edition stands among the accounts.
pub const MASTER_EDITION: usize = 1;

/// Where the mint stands among the accounts.
pub const MINT: usize = 2;

/// Where the signing authority stands among the accounts.
pub const AUTHORITY: usize = 3;

/// Where the payer stands among the accounts.
pub const PAYER: usize = 4;

/// Where the system program stands among the accounts.
pub const SYSTEM_PROGRAM: usize = 5;

/// Where the instructions of the transaction stands among the accounts.
pub const SYSVAR_INSTRUCTIONS: usize = 6;

/// Where the token program stands among the accounts.
pub const TOKEN_PROGRAM: usize = 7;

/// Where the owner of the token stands among the accounts.
pub const TOKEN_OWNER: usize = 8;

/// Where the token account stands among the accounts.
pub const TOKEN_ACCOUNT: usize = 9;

/// Where the token record stands among the accounts.
pub const TOKEN_RECORD: usize = 10;

/// Where the program of holding accounts stands among the accounts.
pub const ASSOCIATED_TOKEN_PROGRAM: usize = 11;

/// Where the program of descriptive records stands among the accounts.
pub const TOKEN_METADATA_PROGRAM: usize = 12;

/// Where the account of the rent parameters stands among the accounts.
pub const RENT: usize = 13;

/// Where the claimant's record stands among the accounts.
pub const RECORD: usize = 14;

/// Where the collection's mint stands among the accounts.
pub const COLLECTION_MINT: usize = 15;

/// Where the collection's descriptive record stands among the accounts.
pub const COLLECTION_METADATA: usize = 16;

/// Where the collection's master edition stands among the accounts.
pub const COLLECTION_MASTER_EDITION: usize = 17;

/// Where the collection's authority record stands among the accounts.
pub const COLLECTION_AUTHORITY_RECORD: usize = 18;

/// The address of the collection's mint, in base 58.
pub const COLLECTION_ADDRESS: &'static str = "YAP8v1Y4aKiM6HEtpCDabXz7VgH9SXxUgTBHbWaN7hg";

/// How the request lays out its accounts and its payload.
pub open spec fn shape_spec() -> RequestShape {
    RequestShape {
        accounts: 19,
        mint: MINT,
        payer: PAYER,
        authority: AUTHORITY,
        record: RECORD,
        header_first: true,
        positioned: true,
        schema: RecordSchema::Wide,
        token_program: Some((TOKEN_PROGRAM, TokenFlavor::Classic)),
        collection: Some(
            CollectionPins {
                mint: COLLECTION_MINT,
                metadata: COLLECTION_METADATA,
                master_edition: COLLECTION_MASTER_EDITION,
                metadata_program: TOKEN_METADATA_PROGRAM,
                expected_mint: COLLECTION_ADDRESS,
            },
        ),
    }
}

/// How the request lays out its accounts and its payload.
pub fn shape() -> (shape: RequestShape)
    ensures
        shape == shape_spec(),
        shape.well_formed(),
{
    RequestShape {
        accounts: 19,
        mint: MINT,
        payer: PAYER,
        authority: AUTHORITY,
        record: RECORD,
        header_first: true,
        positioned: true,
        schema: RecordSchema::Wide,
        token_program: Some((TOKEN_PROGRAM, TokenFlavor::Classic)),
        collection: Some(
            CollectionPins {
                mint: COLLECTION_MINT,
                metadata: COLLECTION_METADATA,
                master_edition: COLLECTION_MASTER_EDITION,
                metadata_program: TOKEN_METADATA_PROGRAM,
                expected_mint: COLLECTION_ADDRESS,
            },
        ),
    }
}

/// The steps of a request that passed the checks, in their order.
pub open spec fn plan_spec(clearance: Clearance) -> Seq<Step> {
    let authority_bump = clearance.authority_bump;
    let record_bump = clearance.record_bump;
    let round = clearance.round_id as u64;
    seq![
        Step {
            call: Call::Allocate {
                payer: PAYER,
                account: MINT,
                system_program: SYSTEM_PROGRAM,
                space: 82,
                owner: Owner::Token(TokenFlavor::Classic),
            },
            signer: Signer::Nobody,
        },
        Step {
            call: Call::InitializeMint {
                decimals: 0,
                flavor: TokenFlavor::Classic,
                mint: MINT,
                authority: AUTHORITY,
                rent: RENT,
                token_program: None,
            },
            signer: Signer::Nobody,
        },
        Step {
            call: Call::CreateAsset {
                standard: AssetStandard::Programmable,
                decimals: 0,
                metadata: METADATA,
                master_edition: MASTER_EDITION,
                mint: MINT,
                authority: AUTHORITY,
                payer: PAYER,
                update_authority: AUTHORITY,
                system_program: SYSTEM_PROGRAM,
                sysvar_instructions: SYSVAR_INSTRUCTIONS,
                token_program: TOKEN_PROGRAM,
                metadata_program: None,
                content: dimensions(clearance.position),
                collection: Some(COLLECTION_MINT),
                creator: Some(
                    Creator {
                        source: ReferenceSource::Account(AUTHORITY),
                        verified: true,
                        share: 100,
                    },
                ),
                print_supply: PrintSupply::Zero,
            },
            signer: Signer::Authority { bump: authority_bump },
        },
        Step {
            call: Call::CreateHoldingAccount {
                flavor: TokenFlavor::Classic,
                idempotent: true,
                payer: PAYER,
                holding: TOKEN_ACCOUNT,
                holder: TOKEN_OWNER,
                mint: MINT,
                system_program: SYSTEM_PROGRAM,
                token_program: TOKEN_PROGRAM,
                associated_token_program: ASSOCIATED_TOKEN_PROGRAM,
                rent: RENT,
            },
            signer: Signer::Nobody,
        },
        Step {
            call: Call::MintAsset {
                amount: 1,
                token: TOKEN_ACCOUNT,
                token_owner: TOKEN_OWNER,
                metadata: METADATA,
                master_edition: MASTER_EDITION,
                token_record: TOKEN_RECORD,
                mint: MINT,
                authority: AUTHORITY,
                payer: PAYER,
                system_program: SYSTEM_PROGRAM,
                sysvar_instructions: SYSVAR_INSTRUCTIONS,
                token_program: TOKEN_PROGRAM,
                associated_token_program: ASSOCIATED_TOKEN_PROGRAM,
                metadata_program: TOKEN_METADATA_PROGRAM,
            },
            signer: Signer::Authority { bump: authority_bump },
        },
        Step {
            call: Call::Allocate {
                payer: PAYER,
                account: RECORD,
                system_program: SYSTEM_PROGRAM,
                space: 32,
                owner: Owner::Engine,
            },
            signer: Signer::Record {
                schema: RecordSchema::Wide,
                round,
                claimant: PAYER,
                bump: record_bump,
            },
        },
        Step {
            call: Call::WriteReference {
                record: RECORD,
                source: ReferenceSource::Account(MINT),
            },
            signer: Signer::Nobody,
        },
        Step {
            call: Call::VerifyCollection {
                metadata: METADATA,
                authority: AUTHORITY,
                collection_mint: COLLECTION_MINT,
                collection_metadata: COLLECTION_METADATA,
                collection_master_edition: COLLECTION_MASTER_EDITION,
                system_program: SYSTEM_PROGRAM,
                sysvar_instructions: SYSVAR_INSTRUCTIONS,
            },
            signer: Signer::Authority { bump: authority_bump },
        },
    ]
}

/// What the request comes to: the first check that it fails, or its plan.
pub open spec fn outcome_spec(
    deployment: Deployment,
    accounts: Seq<AccountView>,
    data: Seq<u8>,
) -> Result<Seq<Step>, IssuanceError> {
    match rejection(shape_spec(), deployment, accounts, data) {
        Some(e) => Err(e),
        None => Ok(plan_spec(clearance_of(shape_spec(), deployment, accounts, data))),
    }
}

/// The plan creates the resource first, then allocates and writes the
/// claimant's record, once.
pub proof fn lemma_plan_keeps_order(clearance: Clearance)
    ensures
        ledger_once_after_creation(plan_spec(clearance), RECORD),
{
    let steps = plan_spec(clearance);
    assert(steps.len() == 8);
    assert(allocates_record(steps[5], RECORD));
    assert(writes_record(steps[6], RECORD));
    assert(creates_token(steps[0]));
    assert(!touches_ledger(steps[0]));
    assert(!touches_ledger(steps[1]));
    assert(!touches_ledger(steps[2]));
    assert(!touches_ledger(steps[3]));
    assert(!touches_ledger(steps[4]));
    assert(!touches_ledger(steps[7]));
    assert(!creates_token(steps[7]));
}

/// Builds the plan of a request that passed the checks.
pub fn plan(clearance: &Clearance) -> (steps: Vec<Step>)
    ensures
        steps@ == plan_spec(*clearance),
{
    let authority_bump = clearance.authority_bump;
    let record_bump = clearance.record_bump;
    let round = clearance.round_id as u64;
    let steps = vec![
        Step {
            call: Call::Allocate {
                payer: PAYER,
                account: MINT,
                system_program: SYSTEM_PROGRAM,
                space: 82,
                owner: Owner::Token(TokenFlavor::Classic),
            },
            signer: Signer::Nobody,
        },
        Step {
            call: Call::InitializeMint {
                decimals: 0,
                flavor: TokenFlavor::Classic,
                mint: MINT,
                authority: AUTHORITY,
                rent: RENT,
                token_program: None,
            },
            signer: Signer::Nobody,
        },
        Step {
            call: Call::CreateAsset {
                standard: AssetStandard::Programmable,
                decimals: 0,
                metadata: METADATA,
                master_edition: MASTER_EDITION,
                mint: MINT,
                authority: AUTHORITY,
                payer: PAYER,
                update_authority: AUTHORITY,
                system_program: SYSTEM_PROGRAM,
                sysvar_instructions: SYSVAR_INSTRUCTIONS,
                token_program: TOKEN_PROGRAM,
                metadata_program: None,
                content: dimensions(clearance.position),
                collection: Some(COLLECTION_MINT),
                creator: Some(
                    Creator {
                        source: ReferenceSource::Account(AUTHORITY),
                        verified: true,
                        share: 100,
                    },
                ),
                print_supply: PrintSupply::Zero,
            },
            signer: Signer::Authority { bump: authority_bump },
        },
        Step {
            call: Call::CreateHoldingAccount {
                flavor: TokenFlavor::Classic,
                idempotent: true,
                payer: PAYER,
                holding: TOKEN_ACCOUNT,
                holder: TOKEN_OWNER,
                mint: MINT,
                system_program: SYSTEM_PROGRAM,
                token_program: TOKEN_PROGRAM,
                associated_token_program: ASSOCIATED_TOKEN_PROGRAM,
                rent: RENT,
            },
            signer: Signer::Nobody,
        },
        Step {
            call: Call::MintAsset {
                amount: 1,
                token: TOKEN_ACCOUNT,
                token_owner: TOKEN_OWNER,
                metadata: METADATA,
                master_edition: MASTER_EDITION,
                token_record: TOKEN_RECORD,
                mint: MINT,
                authority: AUTHORITY,
                payer: PAYER,
                system_program: SYSTEM_PROGRAM,
                sysvar_instructions: SYSVAR_INSTRUCTIONS,
                token_program: TOKEN_PROGRAM,
                associated_token_program: ASSOCIATED_TOKEN_PROGRAM,
                metadata_program: TOKEN_METADATA_PROGRAM,
            },
            signer: Signer::Authority { bump: authority_bump },
        },
        Step {
            call: Call::Allocate {
                payer: PAYER,
                account: RECORD,
                system_program: SYSTEM_PROGRAM,
                space: 32,
                owner: Owner::Engine,
            },
            signer: Signer::Record {
                schema: RecordSchema::Wide,
                round,
                claimant: PAYER,
                bump: record_bump,
            },
        },
        Step {
            call: Call::WriteReference {
                record: RECORD,
                source: ReferenceSource::Account(MINT),
            },
            signer: Signer::Nobody,
        },
        Step {
            call: Call::VerifyCollection {
                metadata: METADATA,
                authority: AUTHORITY,
                collection_mint: COLLECTION_MINT,
                collection_metadata: COLLECTION_METADATA,
                collection_master_edition: COLLECTION_MASTER_EDITION,
                system_program: SYSTEM_PROGRAM,
                sysvar_instructions: SYSVAR_INSTRUCTIONS,
            },
            signer: Signer::Authority { bump: authority_bump },
        },
    ];
    assert(steps@ =~= plan_spec(*clearance));
    steps
}

/// Checks a claimant's request, whose payload carries the claimant's
/// position, and plans the mint, the numbered asset, the holding account, the
/// minting, the record and the collection's confirmation.
pub fn process_instruction(deployment: &Deployment, accounts: &[AccountView], data: &[u8]) -> (r:
    Result<Vec<Step>, IssuanceError>)
    ensures
        outcome_is(r, outcome_spec(*deployment, accounts@, data@)),
        r is Ok ==> ledger_once_after_creation(r->Ok_0@, RECORD),
{
    let clearance = clear_request(&shape(), deployment, accounts, data)?;
    proof {
        lemma_plan_keeps_order(clearance);
    }
    Ok(plan(&clearance))
}

} // verus!
