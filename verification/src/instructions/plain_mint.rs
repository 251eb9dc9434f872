//! Creates a mint and mints one unit to the payer, with no proof asked.

use vstd::prelude::*;
use crate::account::AccountView;
use crate::checks::{
    check_count, check_program, check_signer, count_error, program_error, signer_error,
};
use crate::eligibility::{first, Deployment};
use crate::error::IssuanceError;
use crate::pipeline::outcome_is;
use crate::plan::{Call, Owner, Signer, Step, TokenFlavor};

verus! {

/// Where the mint stands among the accounts.
pub const MINT: usize = 0;

/// Where the payer stands among the accounts.
pub const PAYER: usize = 1;

/// Where the system program stands among the accounts.
pub const SYSTEM_PROGRAM: usize = 2;

/// Where the token program stands among the accounts.
pub const TOKEN_PROGRAM: usize = 3;

/// Where the account of the rent parameters stands among the accounts.
pub const RENT: usize = 4;

/// Where the token account stands among the accounts.
pub const TOKEN_ACCOUNT: usize = 5;

/// Where the program of holding accounts stands among the accounts.
pub const ASSOCIATED_TOKEN_PROGRAM: usize = 6;

/// The first check that the request fails, in the order in which the checks
/// are made; `None` where it passes them all.
pub open spec fn rejection_spec(
    deployment: Deployment,
    accounts: Seq<AccountView>,
    data: Seq<u8>,
) -> Option<IssuanceError> {
    first(
        count_error(accounts, 7),
        first(
            signer_error(accounts[MINT as int]),
            first(
                signer_error(accounts[PAYER as int]),
                first(
                    program_error(accounts[TOKEN_PROGRAM as int], deployment.programs.token),
                    first(
                        program_error(accounts[SYSTEM_PROGRAM as int], deployment.programs.system),
                        program_error(accounts[ASSOCIATED_TOKEN_PROGRAM as int], deployment.programs.associated_token),
                    ),
                ),
            ),
        ),
    )
}

/// The steps of a request that passed the checks, in their order.
pub open spec fn plan_spec() -> Seq<Step> {
    seq![
        Step {
            call: Call::Allocate {
                payer: PAYER,
                account: MINT,
                system_program: SYSTEM_PROGRAM,
                space: 82,
                owner: Owner::Token(TokenFlavor::Classic),
            },
            signer: Signer::Nobody,
        },
        Step {
            call: Call::InitializeMint {
                decimals: 0,
                flavor: TokenFlavor::Classic,
                mint: MINT,
                authority: PAYER,
                rent: RENT,
                token_program: Some(TOKEN_PROGRAM),
            },
            signer: Signer::Nobody,
        },
        Step {
            call: Call::CreateHoldingAccount {
                flavor: TokenFlavor::Classic,
                idempotent: false,
                payer: PAYER,
                holding: TOKEN_ACCOUNT,
                holder: PAYER,
                mint: MINT,
                system_program: SYSTEM_PROGRAM,
                token_program: TOKEN_PROGRAM,
                associated_token_program: ASSOCIATED_TOKEN_PROGRAM,
                rent: RENT,
            },
            signer: Signer::Nobody,
        },
        Step {
            call: Call::MintUnit {
                amount: 1,
                mint: MINT,
                destination: TOKEN_ACCOUNT,
                authority: PAYER,
                token_program: Some(TOKEN_PROGRAM),
                countersigned: true,
            },
            signer: Signer::Nobody,
        },
    ]
}

/// What the request comes to: the first check that it fails, or its plan.
pub open spec fn outcome_spec(
    deployment: Deployment,
    accounts: Seq<AccountView>,
    data: Seq<u8>,
) -> Result<Seq<Step>, IssuanceError> {
    match rejection_spec(deployment, accounts, data) {
        Some(e) => Err(e),
        None => Ok(plan_spec()),
    }
}

/// Checks the signers and the three programs and plans the mint, under
/// the payer's own authority, the holding account and one unit.
pub fn process_instruction(deployment: &Deployment, accounts: &[AccountView], data: &[u8]) -> (r:
    Result<Vec<Step>, IssuanceError>)
    ensures
        outcome_is(r, outcome_spec(*deployment, accounts@, data@)),
{
    check_count(accounts, 7)?;
    check_signer(&accounts[MINT])?;
    check_signer(&accounts[PAYER])?;
    check_program(&accounts[TOKEN_PROGRAM], &deployment.programs.token)?;
    check_program(&accounts[SYSTEM_PROGRAM], &deployment.programs.system)?;
    check_program(&accounts[ASSOCIATED_TOKEN_PROGRAM], &deployment.programs.associated_token)?;
    let steps = vec![
        Step {
            call: Call::Allocate {
                payer: PAYER,
                account: MINT,
                system_program: SYSTEM_PROGRAM,
                space: 82,
                owner: Owner::Token(TokenFlavor::Classic),
            },
            signer: Signer::Nobody,
        },
        Step {
            call: Call::InitializeMint {
                decimals: 0,
                flavor: TokenFlavor::Classic,
                mint: MINT,
                authority: PAYER,
                rent: RENT,
                token_program: Some(TOKEN_PROGRAM),
            },
            signer: Signer::Nobody,
        },
        Step {
            call: Call::CreateHoldingAccount {
                flavor: TokenFlavor::Classic,
                idempotent: false,
                payer: PAYER,
                holding: TOKEN_ACCOUNT,
                holder: PAYER,
                mint: MINT,
                system_program: SYSTEM_PROGRAM,
                token_program: TOKEN_PROGRAM,
                associated_token_program: ASSOCIATED_TOKEN_PROGRAM,
                rent: RENT,
            },
            signer: Signer::Nobody,
        },
        Step {
            call: Call::MintUnit {
                amount: 1,
                mint: MINT,
                destination: TOKEN_ACCOUNT,
                authority: PAYER,
                token_program: Some(TOKEN_PROGRAM),
                countersigned: true,
            },
            signer: Signer::Nobody,
        },
    ];
    assert(steps@ =~= plan_spec());
    Ok(steps)
}

} // verus!
