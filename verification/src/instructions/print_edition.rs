//! Prints an edition of a master edition.

use vstd::prelude::*;
use crate::account::AccountView;
use crate::checks::{check_count, check_short, count_error, short_error};
use crate::eligibility::{first, Deployment};
use crate::error::IssuanceError;
use crate::payload::{le_u64, le_u64_spec};
use crate::pipeline::outcome_is;
use crate::plan::{Call, Signer, Step};

verus! {

/// Where the edition's descriptive record stands among the accounts.
pub const EDITION_METADATA: usize = 0;

/// Where the edition stands among the accounts.
pub const EDITION: usize = 1;

/// Where the master edition stands among the accounts.
pub const MASTER_EDITION: usize = 2;

/// Where the edition's mint stands among the accounts.
pub const EDITION_MINT: usize = 3;

/// Where the edition's marker stands among the accounts.
pub const EDITION_MARKER: usize = 4;

/// Where the authority of the edition's mint stands among the accounts.
pub const EDITION_MINT_AUTHORITY: usize = 5;

/// Where the payer stands among the accounts.
pub const PAYER: usize = 6;

/// Where the owner of the master's token account stands among the accounts.
pub const MASTER_TOKEN_ACCOUNT_OWNER: usize = 7;

/// Where the master's token account stands among the accounts.
pub const MASTER_TOKEN_ACCOUNT: usize = 8;

/// Where the update authority stands among the accounts.
pub const UPDATE_AUTHORITY: usize = 9;

/// Where the master's descriptive record stands among the accounts.
pub const MASTER_METADATA: usize = 10;

/// Where the token program stands among the accounts.
pub const TOKEN_PROGRAM: usize = 11;

/// Where the system program stands among the accounts.
pub const SYSTEM_PROGRAM: usize = 12;

/// Where the instructions of the transaction stands among the accounts.
pub const SYSVAR_INSTRUCTIONS: usize = 13;

/// Where the token program as the descriptive calls name it stands among the accounts.
pub const SPL_TOKEN_PROGRAM: usize = 14;

/// Where the program of holding accounts stands among the accounts.
pub const ASSOCIATED_TOKEN_PROGRAM: usize = 15;

/// The first check that the request fails, in the order in which the checks
/// are made; `None` where it passes them all.
pub open spec fn rejection_spec(
    deployment: Deployment,
    accounts: Seq<AccountView>,
    data: Seq<u8>,
) -> Option<IssuanceError> {
    first(
        count_error(accounts, 16),
        short_error(data, 8),
    )
}

/// The steps of a request that passed the checks, in their order.
pub open spec fn plan_spec(edition_number: u64) -> Seq<Step> {
    seq![
        Step {
            call: Call::PrintEdition {
                edition_metadata: EDITION_METADATA,
                edition: EDITION,
                master_edition: MASTER_EDITION,
                edition_mint: EDITION_MINT,
                edition_marker: EDITION_MARKER,
                edition_mint_authority: EDITION_MINT_AUTHORITY,
                payer: PAYER,
                master_token_account_owner: MASTER_TOKEN_ACCOUNT_OWNER,
                master_token_account: MASTER_TOKEN_ACCOUNT,
                update_authority: UPDATE_AUTHORITY,
                master_metadata: MASTER_METADATA,
                token_program: TOKEN_PROGRAM,
                system_program: SYSTEM_PROGRAM,
                sysvar_instructions: SYSVAR_INSTRUCTIONS,
                spl_token_program: SPL_TOKEN_PROGRAM,
                associated_token_program: ASSOCIATED_TOKEN_PROGRAM,
                edition_number,
            },
            signer: Signer::Nobody,
        },
    ]
}

/// What the request comes to: the first check that it fails, or its plan.
pub open spec fn outcome_spec(
    deployment: Deployment,
    accounts: Seq<AccountView>,
    data: Seq<u8>,
) -> Result<Seq<Step>, IssuanceError> {
    match rejection_spec(deployment, accounts, data) {
        Some(e) => Err(e),
        None => Ok(plan_spec(
            le_u64_spec(data.subrange(0, 8)) as u64,
        )),
    }
}

/// Reads the edition's number from the first eight bytes of the payload
/// and plans the print.
pub fn process_instruction(deployment: &Deployment, accounts: &[AccountView], data: &[u8]) -> (r:
    Result<Vec<Step>, IssuanceError>)
    ensures
        outcome_is(r, outcome_spec(*deployment, accounts@, data@)),
{
    check_count(accounts, 16)?;
    check_short(data, 8)?;
    let edition_number = le_u64(data, 0);
    let steps = vec![
        Step {
            call: Call::PrintEdition {
                edition_metadata: EDITION_METADATA,
                edition: EDITION,
                master_edition: MASTER_EDITION,
                edition_mint: EDITION_MINT,
                edition_marker: EDITION_MARKER,
                edition_mint_authority: EDITION_MINT_AUTHORITY,
                payer: PAYER,
                master_token_account_owner: MASTER_TOKEN_ACCOUNT_OWNER,
                master_token_account: MASTER_TOKEN_ACCOUNT,
                update_authority: UPDATE_AUTHORITY,
                master_metadata: MASTER_METADATA,
                token_program: TOKEN_PROGRAM,
                system_program: SYSTEM_PROGRAM,
                sysvar_instructions: SYSVAR_INSTRUCTIONS,
                spl_token_program: SPL_TOKEN_PROGRAM,
                associated_token_program: ASSOCIATED_TOKEN_PROGRAM,
                edition_number,
            },
            signer: Signer::Nobody,
        },
    ];
    assert(steps@ =~= plan_spec(edition_number));
    Ok(steps)
}

} // verus!
