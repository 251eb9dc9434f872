//! Creates a programmable asset with no proof asked.

use vstd::prelude::*;
use crate::account::AccountView;
use crate::address::authority_address_spec;
use crate::checks::{check_count, check_signer, count_error, signer_error};
use crate::eligibility::{authority_error, check_authority, first, Deployment};
use crate::error::IssuanceError;
use crate::pipeline::outcome_is;
use crate::plan::{plain, AssetStandard, Call, PrintSupply, Signer, Step};

verus! {

/// Where the descriptive record stands among the accounts.
pub const METADATA: usize = 0;

/// Where the master edition stands among the accounts.
pub const MASTER_EDITION: usize = 1;

/// Where the mint stands among the accounts.
pub const MINT: usize = 2;

/// Where the signing authority stands among the accounts.
pub const AUTHORITY: usize = 3;

/// Where the payer stands among the accounts.
pub const PAYER: usize = 4;

/// Where the update authority stands among the accounts.
pub const UPDATE_AUTHORITY: usize = 5;

/// Where the system program stands among the accounts.
pub const SYSTEM_PROGRAM: usize = 6;

/// Where the instructions of the transaction stands among the accounts.
pub const SYSVAR_INSTRUCTIONS: usize = 7;

/// Where the token program as the descriptive calls name it stands among the accounts.
pub const SPL_TOKEN_PROGRAM: usize = 8;

/// Where the program of descriptive records stands among the accounts.
pub const METADATA_PROGRAM: usize = 9;

/// The first check that the request fails, in the order in which the checks
/// are made; `None` where it passes them all.
pub open spec fn rejection_spec(
    deployment: Deployment,
    accounts: Seq<AccountView>,
    data: Seq<u8>,
) -> Option<IssuanceError> {
    first(
        count_error(accounts, 10),
        first(
            signer_error(accounts[MINT as int]),
            first(
                signer_error(accounts[PAYER as int]),
                authority_error(deployment.program_id@, accounts[AUTHORITY as int]),
            ),
        ),
    )
}

/// The steps of a request that passed the checks, in their order.
pub open spec fn plan_spec(authority_bump: u8) -> Seq<Step> {
    seq![
        Step {
            call: Call::CreateAsset {
                standard: AssetStandard::Programmable,
                decimals: 0,
                metadata: METADATA,
                master_edition: MASTER_EDITION,
                mint: MINT,
                authority: AUTHORITY,
                payer: PAYER,
                update_authority: AUTHORITY,
                system_program: SYSTEM_PROGRAM,
                sysvar_instructions: SYSVAR_INSTRUCTIONS,
                token_program: SPL_TOKEN_PROGRAM,
                metadata_program: Some(METADATA_PROGRAM),
                content: plain(700),
                collection: None,
                creator: None,
                print_supply: PrintSupply::Zero,
            },
            signer: Signer::Authority { bump: authority_bump },
        },
    ]
}

/// What the request comes to: the first check that it fails, or its plan.
pub open spec fn outcome_spec(
    deployment: Deployment,
    accounts: Seq<AccountView>,
    data: Seq<u8>,
) -> Result<Seq<Step>, IssuanceError> {
    match rejection_spec(deployment, accounts, data) {
        Some(e) => Err(e),
        None => Ok(plan_spec(
            authority_address_spec(deployment.program_id@)->Some_0.1,
        )),
    }
}

/// Checks the signers and the authority and plans the asset.
pub fn create_clean_nft_and_mint(deployment: &Deployment, accounts: &[AccountView], data: &[u8]) -> (r:
    Result<Vec<Step>, IssuanceError>)
    ensures
        outcome_is(r, outcome_spec(*deployment, accounts@, data@)),
{
    check_count(accounts, 10)?;
    check_signer(&accounts[MINT])?;
    check_signer(&accounts[PAYER])?;
    let authority_bump = check_authority(&deployment.program_id, &accounts[AUTHORITY])?;
    let steps = vec![
        Step {
            call: Call::CreateAsset {
                standard: AssetStandard::Programmable,
                decimals: 0,
                metadata: METADATA,
                master_edition: MASTER_EDITION,
                mint: MINT,
                authority: AUTHORITY,
                payer: PAYER,
                update_authority: AUTHORITY,
                system_program: SYSTEM_PROGRAM,
                sysvar_instructions: SYSVAR_INSTRUCTIONS,
                token_program: SPL_TOKEN_PROGRAM,
                metadata_program: Some(METADATA_PROGRAM),
                content: plain(700),
                collection: None,
                creator: None,
                print_supply: PrintSupply::Zero,
            },
            signer: Signer::Authority { bump: authority_bump },
        },
    ];
    assert(steps@ =~= plan_spec(authority_bump));
    Ok(steps)
}

/// Checks and plans as [`create_clean_nft_and_mint`] does: the two operations
/// ask for the same accounts and make the same call.
pub fn create_clean_nft_and_ata(deployment: &Deployment, accounts: &[AccountView], data: &[u8]) -> (r:
    Result<Vec<Step>, IssuanceError>)
    ensures
        outcome_is(r, outcome_spec(*deployment, accounts@, data@)),
{
    create_clean_nft_and_mint(deployment, accounts, data)
}

} // verus!
