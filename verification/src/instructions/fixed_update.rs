//! Replaces the content of the one fixed asset.

use vstd::prelude::*;
use crate::account::AccountView;
use crate::address::authority_address_spec;
use crate::checks::{check_count, check_fixed, check_signer, count_error, fixed_error, signer_error};
use crate::eligibility::{authority_error, check_authority, first, Deployment};
use crate::error::IssuanceError;
use crate::pipeline::outcome_is;
use crate::plan::{infinity, Call, NewContent, Signer, Step};

verus! {

/// Where the descriptive record stands among the accounts.
pub const METADATA: usize = 0;

/// Where the mint stands among the accounts.
pub const MINT: usize = 1;

/// Where the signing authority stands among the accounts.
pub const AUTHORITY: usize = 2;

/// Where the payer stands among the accounts.
pub const PAYER: usize = 3;

/// Where the system program stands among the accounts.
pub const SYSTEM_PROGRAM: usize = 4;

/// Where the instructions of the transaction stands among the accounts.
pub const SYSVAR_INSTRUCTIONS: usize = 5;

/// Where the program of descriptive records stands among the accounts.
pub const TOKEN_METADATA_PROGRAM: usize = 6;

/// The address of the asset's mint, in base 58.
pub const TARGET_MINT: &'static str = "E2i6VKGsjXXbSXJUL2y6yEkJrHQZwSke7r9yuCQScrun";

/// The first check that the request fails, in the order in which the checks
/// are made; `None` where it passes them all.
pub open spec fn rejection_spec(
    deployment: Deployment,
    accounts: Seq<AccountView>,
    data: Seq<u8>,
) -> Option<IssuanceError> {
    first(
        count_error(accounts, 7),
        first(
            signer_error(accounts[PAYER as int]),
            first(
                fixed_error(accounts[MINT as int], TARGET_MINT),
                authority_error(deployment.program_id@, accounts[AUTHORITY as int]),
            ),
        ),
    )
}

/// The steps of a request that passed the checks, in their order.
pub open spec fn plan_spec(authority_bump: u8) -> Seq<Step> {
    seq![
        Step {
            call: Call::UpdateAsset {
                authority: AUTHORITY,
                mint: MINT,
                metadata: METADATA,
                payer: PAYER,
                system_program: SYSTEM_PROGRAM,
                sysvar_instructions: SYSVAR_INSTRUCTIONS,
                content: NewContent::Fixed(infinity()),
            },
            signer: Signer::Authority { bump: authority_bump },
        },
    ]
}

/// What the request comes to: the first check that it fails, or its plan.
pub open spec fn outcome_spec(
    deployment: Deployment,
    accounts: Seq<AccountView>,
    data: Seq<u8>,
) -> Result<Seq<Step>, IssuanceError> {
    match rejection_spec(deployment, accounts, data) {
        Some(e) => Err(e),
        None => Ok(plan_spec(
            authority_address_spec(deployment.program_id@)->Some_0.1,
        )),
    }
}

/// Checks the payer, the asset's fixed address and the authority, and
/// plans the update.
pub fn process_instruction(deployment: &Deployment, accounts: &[AccountView], data: &[u8]) -> (r:
    Result<Vec<Step>, IssuanceError>)
    ensures
        outcome_is(r, outcome_spec(*deployment, accounts@, data@)),
{
    check_count(accounts, 7)?;
    check_signer(&accounts[PAYER])?;
    check_fixed(&accounts[MINT], TARGET_MINT)?;
    let authority_bump = check_authority(&deployment.program_id, &accounts[AUTHORITY])?;
    let steps = vec![
        Step {
            call: Call::UpdateAsset {
                authority: AUTHORITY,
                mint: MINT,
                metadata: METADATA,
                payer: PAYER,
                system_program: SYSTEM_PROGRAM,
                sysvar_instructions: SYSVAR_INSTRUCTIONS,
                content: NewContent::Fixed(infinity()),
            },
            signer: Signer::Authority { bump: authority_bump },
        },
    ];
    assert(steps@ =~= plan_spec(authority_bump));
    Ok(steps)
}

} // verus!
