//! Issues one token to a claimant of a round, records the mint, and makes it a master edition.

use vstd::prelude::*;
use crate::account::AccountView;
use crate::eligibility::{
    clear_request, clearance_of, rejection, Clearance, Deployment, RequestShape,
};
use crate::error::IssuanceError;
use crate::pipeline::outcome_is;
use crate::plan::{
    allocates_record, ledger_once_after_creation, plain, touches_ledger, writes_record, Call,
    Owner, RecordSchema, ReferenceSource, Signer, Step, TokenFlavor,
};

verus! {

/// Where the mint stands among the accounts.
pub const MINT: usize = 0;

/// Where the claimant's holding account stands among the accounts.
pub const HOLDING: usize = 1;

/// Where the payer stands among the accounts.
pub const PAYER: usize = 2;

/// Where the system program stands among the accounts.
pub const SYSTEM_PROGRAM: usize = 3;

/// Where the token program stands among the accounts.
pub const TOKEN_PROGRAM: usize = 4;

/// Where the program of holding accounts stands among the accounts.
pub const ASSOCIATED_TOKEN_PROGRAM: usize = 5;

/// Where the account of the rent parameters stands among the accounts.
pub const RENT: usize = 6;

/// Where the signing authority stands among the accounts.
pub const AUTHORITY: usize = 7;

/// Where the claimant's record stands among the accounts.
pub const RECORD: usize = 8;

/// Where the descriptive record stands among the accounts.
pub const METADATA: usize = 9;

/// Where the program of descriptive records stands among the accounts.
pub const METADATA_PROGRAM: usize = 10;

/// Where the master edition stands among the accounts.
pub const MASTER_EDITION: usize = 11;

/// Where the token program as the descriptive calls name it stands among the accounts.
pub const SPL_TOKEN_PROGRAM: usize = 12;

/// How the request lays out its accounts and its payload.
pub open spec fn shape_spec() -> RequestShape {
    RequestShape {
        accounts: 13,
        mint: MINT,
        payer: PAYER,
        authority: AUTHORITY,
        record: RECORD,
        header_first: false,
        positioned: false,
        schema: RecordSchema::Extended,
        token_program: None,
        collection: None,
    }
}

/// How the request lays out its accounts and its payload.
pub fn shape() -> (shape: RequestShape)
    ensures
        shape == shape_spec(),
        shape.well_formed(),
{
    RequestShape {
        accounts: 13,
        mint: MINT,
        payer: PAYER,
        authority: AUTHORITY,
        record: RECORD,
        header_first: false,
        positioned: false,
        schema: RecordSchema::Extended,
        token_program: None,
        collection: None,
    }
}

/// The steps of a request that passed the checks, in their order.
pub open spec fn plan_spec(clearance: Clearance) -> Seq<Step> {
    let authority_bump = clearance.authority_bump;
    let record_bump = clearance.record_bump;
    let round = clearance.round_id as u64;
    seq![
        Step {
            call: Call::Allocate {
                payer: PAYER,
                account: MINT,
                system_program: SYSTEM_PROGRAM,
                space: 82,
                owner: Owner::Token(TokenFlavor::Classic),
            },
            signer: Signer::Nobody,
        },
        Step {
            call: Call::InitializeMint {
                decimals: 0,
                flavor: TokenFlavor::Classic,
                mint: MINT,
                authority: AUTHORITY,
                rent: RENT,
                token_program: None,
            },
            signer: Signer::Nobody,
        },
        Step {
            call: Call::CreateHoldingAccount {
                flavor: TokenFlavor::Classic,
                idempotent: false,
                payer: PAYER,
                holding: HOLDING,
                holder: PAYER,
                mint: MINT,
                system_program: SYSTEM_PROGRAM,
                token_program: TOKEN_PROGRAM,
                associated_token_program: ASSOCIATED_TOKEN_PROGRAM,
                rent: RENT,
            },
            signer: Signer::Nobody,
        },
        Step {
            call: Call::MintUnit {
                amount: 1,
                mint: MINT,
                destination: HOLDING,
                authority: AUTHORITY,
                token_program: Some(SPL_TOKEN_PROGRAM),
                countersigned: false,
            },
            signer: Signer::Authority { bump: authority_bump },
        },
        Step {
            call: Call::Allocate {
                payer: PAYER,
                account: RECORD,
                system_program: SYSTEM_PROGRAM,
                space: 32,
                owner: Owner::Engine,
            },
            signer: Signer::Record {
                schema: RecordSchema::Extended,
                round,
                claimant: PAYER,
                bump: record_bump,
            },
        },
        Step {
            call: Call::WriteReference {
                record: RECORD,
                source: ReferenceSource::Account(MINT),
            },
            signer: Signer::Nobody,
        },
        Step {
            call: Call::CreateMetadata {
                metadata: METADATA,
                mint: MINT,
                authority: AUTHORITY,
                payer: PAYER,
                metadata_program: METADATA_PROGRAM,
                system_program: SYSTEM_PROGRAM,
                rent: RENT,
                token_program: SPL_TOKEN_PROGRAM,
                content: plain(700),
            },
            signer: Signer::Authority { bump: authority_bump },
        },
        Step {
            call: Call::CreateMasterEdition {
                max_supply: Some(0),
                edition: MASTER_EDITION,
                metadata: METADATA,
                mint: MINT,
                authority: AUTHORITY,
                payer: PAYER,
                metadata_program: METADATA_PROGRAM,
                token_program: TOKEN_PROGRAM,
                system_program: SYSTEM_PROGRAM,
                rent: RENT,
                spl_token_program: SPL_TOKEN_PROGRAM,
            },
            signer: Signer::Authority { bump: authority_bump },
        },
    ]
}

/// What the request comes to: the first check that it fails, or its plan.
pub open spec fn outcome_spec(
    deployment: Deployment,
    accounts: Seq<AccountView>,
    data: Seq<u8>,
) -> Result<Seq<Step>, IssuanceError> {
    match rejection(shape_spec(), deployment, accounts, data) {
        Some(e) => Err(e),
        None => Ok(plan_spec(clearance_of(shape_spec(), deployment, accounts, data))),
    }
}

/// The plan creates the resource first, then allocates and writes the
/// claimant's record, once.
pub proof fn lemma_plan_keeps_order(clearance: Clearance)
    ensures
        ledger_once_after_creation(plan_spec(clearance), RECORD),
{
    let steps = plan_spec(clearance);
    assert(steps.len() == 8);
    assert(allocates_record(steps[4], RECORD));
    assert(writes_record(steps[5], RECORD));
    assert(!touches_ledger(steps[0]));
    assert(!touches_ledger(steps[1]));
    assert(!touches_ledger(steps[2]));
    assert(!touches_ledger(steps[3]));
    assert(!touches_ledger(steps[6]));
    assert(!touches_ledger(steps[7]));
}

/// Builds the plan of a request that passed the checks.
pub fn plan(clearance: &Clearance) -> (steps: Vec<Step>)
    ensures
        steps@ == plan_spec(*clearance),
{
    let authority_bump = clearance.authority_bump;
    let record_bump = clearance.record_bump;
    let round = clearance.round_id as u64;
    let steps = vec![
        Step {
            call: Call::Allocate {
                payer: PAYER,
                account: MINT,
                system_program: SYSTEM_PROGRAM,
                space: 82,
                owner: Owner::Token(TokenFlavor::Classic),
            },
            signer: Signer::Nobody,
        },
        Step {
            call: Call::InitializeMint {
                decimals: 0,
                flavor: TokenFlavor::Classic,
                mint: MINT,
                authority: AUTHORITY,
                rent: RENT,
                token_program: None,
            },
            signer: Signer::Nobody,
        },
        Step {
            call: Call::CreateHoldingAccount {
                flavor: TokenFlavor::Classic,
                idempotent: false,
                payer: PAYER,
                holding: HOLDING,
                holder: PAYER,
                mint: MINT,
                system_program: SYSTEM_PROGRAM,
                token_program: TOKEN_PROGRAM,
                associated_token_program: ASSOCIATED_TOKEN_PROGRAM,
                rent: RENT,
            },
            signer: Signer::Nobody,
        },
        Step {
            call: Call::MintUnit {
                amount: 1,
                mint: MINT,
                destination: HOLDING,
                authority: AUTHORITY,
                token_program: Some(SPL_TOKEN_PROGRAM),
                countersigned: false,
            },
            signer: Signer::Authority { bump: authority_bump },
        },
        Step {
            call: Call::Allocate {
                payer: PAYER,
                account: RECORD,
                system_program: SYSTEM_PROGRAM,
                space: 32,
                owner: Owner::Engine,
            },
            signer: Signer::Record {
                schema: RecordSchema::Extended,
                round,
                claimant: PAYER,
                bump: record_bump,
            },
        },
        Step {
            call: Call::WriteReference {
                record: RECORD,
                source: ReferenceSource::Account(MINT),
            },
            signer: Signer::Nobody,
        },
        Step {
            call: Call::CreateMetadata {
                metadata: METADATA,
                mint: MINT,
                authority: AUTHORITY,
                payer: PAYER,
                metadata_program: METADATA_PROGRAM,
                system_program: SYSTEM_PROGRAM,
                rent: RENT,
                token_program: SPL_TOKEN_PROGRAM,
                content: plain(700),
            },
            signer: Signer::Authority { bump: authority_bump },
        },
        Step {
            call: Call::CreateMasterEdition {
                max_supply: Some(0),
                edition: MASTER_EDITION,
                metadata: METADATA,
                mint: MINT,
                authority: AUTHORITY,
                payer: PAYER,
                metadata_program: METADATA_PROGRAM,
                token_program: TOKEN_PROGRAM,
                system_program: SYSTEM_PROGRAM,
                rent: RENT,
                spl_token_program: SPL_TOKEN_PROGRAM,
            },
            signer: Signer::Authority { bump: authority_bump },
        },
    ];
    assert(steps@ =~= plan_spec(*clearance));
    steps
}

/// Checks a claimant's request and plans the issuance, the record, the
/// descriptive record and the master edition.
pub fn create_mint_metadata_and_master_edition(deployment: &Deployment, accounts: &[AccountView], data: &[u8]) -> (r:
    Result<Vec<Step>, IssuanceError>)
    ensures
        outcome_is(r, outcome_spec(*deployment, accounts@, data@)),
        r is Ok ==> ledger_once_after_creation(r->Ok_0@, RECORD),
{
    let clearance = clear_request(&shape(), deployment, accounts, data)?;
    proof {
        lemma_plan_keeps_order(clearance);
    }
    Ok(plan(&clearance))
}

} // verus!
