//! Creates a programmable asset and mints it, with no proof asked.

use vstd::prelude::*;
use crate::account::AccountView;
use crate::address::authority_address_spec;
use crate::checks::{check_count, check_signer, count_error, signer_error};
use crate::eligibility::{authority_error, check_authority, first, Deployment};
use crate::error::IssuanceError;
use crate::pipeline::outcome_is;
use crate::plan::{programmable, AssetStandard, Call, PrintSupply, Signer, Step};

verus! {

/// Where the descriptive record stands among the accounts.
pub const METADATA: usize = 0;

/// Where the master edition stands among the accounts.
pub const MASTER_EDITION: usize = 1;

/// Where the mint stands among the accounts.
pub const MINT: usize = 2;

/// Where the signing authority stands among the accounts.
pub const AUTHORITY: usize = 3;

/// Where the payer stands among the accounts.
pub const PAYER: usize = 4;

/// Where the system program stands among the accounts.
pub const SYSTEM_PROGRAM: usize = 5;

/// Where the instructions of the transaction stands among the accounts.
pub const SYSVAR_INSTRUCTIONS: usize = 6;

/// Where the token program stands among the accounts.
pub const TOKEN_PROGRAM: usize = 7;

/// Where the owner of the token stands among the accounts.
pub const TOKEN_OWNER: usize = 8;

/// Where the token account stands among the accounts.
pub const TOKEN_ACCOUNT: usize = 9;

/// Where the token record stands among the accounts.
pub const TOKEN_RECORD: usize = 10;

/// Where the program of holding accounts stands among the accounts.
pub const ASSOCIATED_TOKEN_PROGRAM: usize = 11;

/// Where the program of descriptive records stands among the accounts.
pub const TOKEN_METADATA_PROGRAM: usize = 12;

/// The first check that the request fails, in the order in which the checks
/// are made; `None` where it passes them all.
pub open spec fn rejection_spec(
    deployment: Deployment,
    accounts: Seq<AccountView>,
    data: Seq<u8>,
) -> Option<IssuanceError> {
    first(
        count_error(accounts, 13),
        first(
            signer_error(accounts[MINT as int]),
            first(
                signer_error(accounts[PAYER as int]),
                authority_error(deployment.program_id@, accounts[AUTHORITY as int]),
            ),
        ),
    )
}

/// The steps of a request that passed the checks, in their order.
pub open spec fn plan_spec(authority_bump: u8) -> Seq<Step> {
    seq![
        Step {
            call: Call::CreateAsset {
                standard: AssetStandard::Programmable,
                decimals: 0,
                metadata: METADATA,
                master_edition: MASTER_EDITION,
                mint: MINT,
                authority: AUTHORITY,
                payer: PAYER,
                update_authority: AUTHORITY,
                system_program: SYSTEM_PROGRAM,
                sysvar_instructions: SYSVAR_INSTRUCTIONS,
                token_program: TOKEN_PROGRAM,
                metadata_program: None,
                content: programmable(),
                collection: None,
                creator: None,
                print_supply: PrintSupply::Zero,
            },
            signer: Signer::Authority { bump: authority_bump },
        },
        Step {
            call: Call::MintAsset {
                amount: 1,
                token: TOKEN_ACCOUNT,
                token_owner: TOKEN_OWNER,
                metadata: METADATA,
                master_edition: MASTER_EDITION,
                token_record: TOKEN_RECORD,
                mint: MINT,
                authority: AUTHORITY,
                payer: PAYER,
                system_program: SYSTEM_PROGRAM,
                sysvar_instructions: SYSVAR_INSTRUCTIONS,
                token_program: TOKEN_PROGRAM,
                associated_token_program: ASSOCIATED_TOKEN_PROGRAM,
                metadata_program: TOKEN_METADATA_PROGRAM,
            },
            signer: Signer::Authority { bump: authority_bump },
        },
    ]
}

/// What the request comes to: the first check that it fails, or its plan.
pub open spec fn outcome_spec(
    deployment: Deployment,
    accounts: Seq<AccountView>,
    data: Seq<u8>,
) -> Result<Seq<Step>, IssuanceError> {
    match rejection_spec(deployment, accounts, data) {
        Some(e) => Err(e),
        None => Ok(plan_spec(
            authority_address_spec(deployment.program_id@)->Some_0.1,
        )),
    }
}

/// Checks the signers and the authority and plans the asset and its
/// minting.
pub fn process_create_and_mint_pnft(deployment: &Deployment, accounts: &[AccountView], data: &[u8]) -> (r:
    Result<Vec<Step>, IssuanceError>)
    ensures
        outcome_is(r, outcome_spec(*deployment, accounts@, data@)),
{
    check_count(accounts, 13)?;
    check_signer(&accounts[MINT])?;
    check_signer(&accounts[PAYER])?;
    let authority_bump = check_authority(&deployment.program_id, &accounts[AUTHORITY])?;
    let steps = vec![
        Step {
            call: Call::CreateAsset {
                standard: AssetStandard::Programmable,
                decimals: 0,
                metadata: METADATA,
                master_edition: MASTER_EDITION,
                mint: MINT,
                authority: AUTHORITY,
                payer: PAYER,
                update_authority: AUTHORITY,
                system_program: SYSTEM_PROGRAM,
                sysvar_instructions: SYSVAR_INSTRUCTIONS,
                token_program: TOKEN_PROGRAM,
                metadata_program: None,
                content: programmable(),
                collection: None,
                creator: None,
                print_supply: PrintSupply::Zero,
            },
            signer: Signer::Authority { bump: authority_bump },
        },
        Step {
            call: Call::MintAsset {
                amount: 1,
                token: TOKEN_ACCOUNT,
                token_owner: TOKEN_OWNER,
                metadata: METADATA,
                master_edition: MASTER_EDITION,
                token_record: TOKEN_RECORD,
                mint: MINT,
                authority: AUTHORITY,
                payer: PAYER,
                system_program: SYSTEM_PROGRAM,
                sysvar_instructions: SYSVAR_INSTRUCTIONS,
                token_program: TOKEN_PROGRAM,
                associated_token_program: ASSOCIATED_TOKEN_PROGRAM,
                metadata_program: TOKEN_METADATA_PROGRAM,
            },
            signer: Signer::Authority { bump: authority_bump },
        },
    ];
    assert(steps@ =~= plan_spec(authority_bump));
    Ok(steps)
}

} // verus!
