//! Describes a mint that exists already.

use vstd::prelude::*;
use crate::account::AccountView;
use crate::address::authority_address_spec;
use crate::checks::{
    capacity_error, check_capacity, check_count, check_signer, count_error, signer_error,
};
use crate::eligibility::{authority_error, check_authority, first, Deployment};
use crate::error::IssuanceError;
use crate::pipeline::outcome_is;
use crate::plan::{plain, AssetStandard, BytePlace, Call, Signer, Step};

verus! {

/// Where the descriptive record stands among the accounts.
pub const METADATA: usize = 0;

/// Where the mint stands among the accounts.
pub const MINT: usize = 1;

/// Where the signing authority stands among the accounts.
pub const AUTHORITY: usize = 2;

/// Where the payer stands among the accounts.
pub const PAYER: usize = 3;

/// Where the program of descriptive records stands among the accounts.
pub const METADATA_PROGRAM: usize = 4;

/// Where the system program stands among the accounts.
pub const SYSTEM_PROGRAM: usize = 5;

/// Where the account of the rent parameters stands among the accounts.
pub const RENT: usize = 6;

/// Where the token program stands among the accounts.
pub const TOKEN_PROGRAM: usize = 7;

/// The first check that the request fails, in the order in which the checks
/// are made; `None` where it passes them all.
pub open spec fn rejection_spec(
    deployment: Deployment,
    accounts: Seq<AccountView>,
    data: Seq<u8>,
) -> Option<IssuanceError> {
    first(
        count_error(accounts, 8),
        first(
            signer_error(accounts[PAYER as int]),
            first(
                authority_error(deployment.program_id@, accounts[AUTHORITY as int]),
                capacity_error(accounts[METADATA as int], 116),
            ),
        ),
    )
}

/// The steps of a request that passed the checks, in their order.
pub open spec fn plan_spec(authority_bump: u8) -> Seq<Step> {
    seq![
        Step {
            call: Call::MarkStandard {
                standard: AssetStandard::Programmable,
                account: METADATA,
                place: BytePlace::At(115),
            },
            signer: Signer::Nobody,
        },
        Step {
            call: Call::CreateMetadata {
                metadata: METADATA,
                mint: MINT,
                authority: AUTHORITY,
                payer: PAYER,
                metadata_program: METADATA_PROGRAM,
                system_program: SYSTEM_PROGRAM,
                rent: RENT,
                token_program: TOKEN_PROGRAM,
                content: plain(700),
            },
            signer: Signer::Authority { bump: authority_bump },
        },
    ]
}

/// What the request comes to: the first check that it fails, or its plan.
pub open spec fn outcome_spec(
    deployment: Deployment,
    accounts: Seq<AccountView>,
    data: Seq<u8>,
) -> Result<Seq<Step>, IssuanceError> {
    match rejection_spec(deployment, accounts, data) {
        Some(e) => Err(e),
        None => Ok(plan_spec(
            authority_address_spec(deployment.program_id@)->Some_0.1,
        )),
    }
}

/// Checks the payer and the authority and plans the descriptive record of
/// the mint, marked as programmable.
pub fn create_metadata_for_existing_mint(deployment: &Deployment, accounts: &[AccountView], data: &[u8]) -> (r:
    Result<Vec<Step>, IssuanceError>)
    ensures
        outcome_is(r, outcome_spec(*deployment, accounts@, data@)),
{
    check_count(accounts, 8)?;
    check_signer(&accounts[PAYER])?;
    let authority_bump = check_authority(&deployment.program_id, &accounts[AUTHORITY])?;
    check_capacity(&accounts[METADATA], 116)?;
    let steps = vec![
        Step {
            call: Call::MarkStandard {
                standard: AssetStandard::Programmable,
                account: METADATA,
                place: BytePlace::At(115),
            },
            signer: Signer::Nobody,
        },
        Step {
            call: Call::CreateMetadata {
                metadata: METADATA,
                mint: MINT,
                authority: AUTHORITY,
                payer: PAYER,
                metadata_program: METADATA_PROGRAM,
                system_program: SYSTEM_PROGRAM,
                rent: RENT,
                token_program: TOKEN_PROGRAM,
                content: plain(700),
            },
            signer: Signer::Authority { bump: authority_bump },
        },
    ];
    assert(steps@ =~= plan_spec(authority_bump));
    Ok(steps)
}

} // verus!
