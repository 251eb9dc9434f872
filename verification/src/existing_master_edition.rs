//! Makes a mint that exists already a master edition.

use vstd::prelude::*;
use crate::account::AccountView;
use crate::address::authority_address_spec;
use crate::checks::{
    capacity_error, check_capacity, check_count, check_signer, count_error, signer_error,
};
use crate::eligibility::{authority_error, check_authority, first, Deployment};
use crate::error::IssuanceError;
use crate::pipeline::outcome_is;
use crate::plan::{AssetStandard, BytePlace, Call, Signer, Step};

verus! {

/// Where the master edition stands among the accounts.
pub const MASTER_EDITION: usize = 0;

/// Where the descriptive record stands among the accounts.
pub const METADATA: usize = 1;

/// Where the mint stands among the accounts.
pub const MINT: usize = 2;

/// Where the signing authority stands among the accounts.
pub const AUTHORITY: usize = 3;

/// Where the payer stands among the accounts.
pub const PAYER: usize = 4;

/// Where the program of descriptive records stands among the accounts.
pub const METADATA_PROGRAM: usize = 5;

/// Where the token program stands among the accounts.
pub const TOKEN_PROGRAM: usize = 6;

/// Where the system program stands among the accounts.
pub const SYSTEM_PROGRAM: usize = 7;

/// Where the account of the rent parameters stands among the accounts.
pub const RENT: usize = 8;

/// Where the token program as the descriptive calls name it stands among the accounts.
pub const SPL_TOKEN_PROGRAM: usize = 9;

/// The first check that the request fails, in the order in which the checks
/// are made; `None` where it passes them all.
pub open spec fn rejection_spec(
    deployment: Deployment,
    accounts: Seq<AccountView>,
    data: Seq<u8>,
) -> Option<IssuanceError> {
    first(
        count_error(accounts, 10),
        first(
            signer_error(accounts[PAYER as int]),
            first(
                authority_error(deployment.program_id@, accounts[AUTHORITY as int]),
                capacity_error(accounts[MASTER_EDITION as int], 1),
            ),
        ),
    )
}

/// The steps of a request that passed the checks, in their order.
pub open spec fn plan_spec(authority_bump: u8) -> Seq<Step> {
    seq![
        Step {
            call: Call::MarkStandard {
                standard: AssetStandard::Programmable,
                account: MASTER_EDITION,
                place: BytePlace::Last,
            },
            signer: Signer::Nobody,
        },
        Step {
            call: Call::CreateMasterEdition {
                max_supply: Some(0),
                edition: MASTER_EDITION,
                metadata: METADATA,
                mint: MINT,
                authority: AUTHORITY,
                payer: PAYER,
                metadata_program: METADATA_PROGRAM,
                token_program: TOKEN_PROGRAM,
                system_program: SYSTEM_PROGRAM,
                rent: RENT,
                spl_token_program: SPL_TOKEN_PROGRAM,
            },
            signer: Signer::Authority { bump: authority_bump },
        },
    ]
}

/// What the request comes to: the first check that it fails, or its plan.
pub open spec fn outcome_spec(
    deployment: Deployment,
    accounts: Seq<AccountView>,
    data: Seq<u8>,
) -> Result<Seq<Step>, IssuanceError> {
    match rejection_spec(deployment, accounts, data) {
        Some(e) => Err(e),
        None => Ok(plan_spec(
            authority_address_spec(deployment.program_id@)->Some_0.1,
        )),
    }
}

/// Checks the payer and the authority and plans the master edition of the
/// mint, marked as programmable.
pub fn create_master_edition_for_existing_mint(deployment: &Deployment, accounts: &[AccountView], data: &[u8]) -> (r:
    Result<Vec<Step>, IssuanceError>)
    ensures
        outcome_is(r, outcome_spec(*deployment, accounts@, data@)),
{
    check_count(accounts, 10)?;
    check_signer(&accounts[PAYER])?;
    let authority_bump = check_authority(&deployment.program_id, &accounts[AUTHORITY])?;
    check_capacity(&accounts[MASTER_EDITION], 1)?;
    let steps = vec![
        Step {
            call: Call::MarkStandard {
                standard: AssetStandard::Programmable,
                account: MASTER_EDITION,
                place: BytePlace::Last,
            },
            signer: Signer::Nobody,
        },
        Step {
            call: Call::CreateMasterEdition {
                max_supply: Some(0),
                edition: MASTER_EDITION,
                metadata: METADATA,
                mint: MINT,
                authority: AUTHORITY,
                payer: PAYER,
                metadata_program: METADATA_PROGRAM,
                token_program: TOKEN_PROGRAM,
                system_program: SYSTEM_PROGRAM,
                rent: RENT,
                spl_token_program: SPL_TOKEN_PROGRAM,
            },
            signer: Signer::Authority { bump: authority_bump },
        },
    ];
    assert(steps@ =~= plan_spec(authority_bump));
    Ok(steps)
}

} // verus!
