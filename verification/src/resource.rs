//! The steps that create a token: its mint, the holding account, one unit.

use vstd::prelude::*;
use crate::plan::{Call, Owner, Signer, Step, TokenFlavor};

verus! {

/// The two steps that make `mint` a mint under the classic token program:
/// its allocation, paid by `payer`, and its initialisation with `authority`
/// as mint and freeze authority.
pub open spec fn create_and_init_mint_account_spec(
    payer: usize,
    mint: usize,
    authority: usize,
    system_program: usize,
    rent: usize,
) -> (Step, Step) {
    (
        Step {
            call: Call::Allocate {
                payer,
                account: mint,
                system_program,
                space: 82,
                owner: Owner::Token(TokenFlavor::Classic),
            },
            signer: Signer::Nobody,
        },
        Step {
            call: Call::InitializeMint {
                flavor: TokenFlavor::Classic,
                decimals: 0,
                mint,
                authority,
                rent,
                token_program: None,
            },
            signer: Signer::Nobody,
        },
    )
}

/// Plans the allocation and the initialisation of a mint.
#[verifier::when_used_as_spec(create_and_init_mint_account_spec)]
pub fn create_and_init_mint_account(
    payer: usize,
    mint: usize,
    authority: usize,
    system_program: usize,
    rent: usize,
) -> (steps: (Step, Step))
    ensures
        steps == create_and_init_mint_account_spec(payer, mint, authority, system_program, rent),
{
    (
        Step {
            call: Call::Allocate {
                payer,
                account: mint,
                system_program,
                space: 82,
                owner: Owner::Token(TokenFlavor::Classic),
            },
            signer: Signer::Nobody,
        },
        Step {
            call: Call::InitializeMint {
                flavor: TokenFlavor::Classic,
                decimals: 0,
                mint,
                authority,
                rent,
                token_program: None,
            },
            signer: Signer::Nobody,
        },
    )
}

/// The step that creates the payer's own holding account for `mint`.
pub open spec fn create_associated_token_account_spec(
    payer: usize,
    holding: usize,
    mint: usize,
    system_program: usize,
    token_program: usize,
    associated_token_program: usize,
    rent: usize,
) -> Step {
    Step {
        call: Call::CreateHoldingAccount {
            flavor: TokenFlavor::Classic,
            idempotent: false,
            payer,
            holding,
            holder: payer,
            mint,
            system_program,
            token_program,
            associated_token_program,
            rent,
        },
        signer: Signer::Nobody,
    }
}

/// Plans the payer's own holding account for `mint`.
#[verifier::when_used_as_spec(create_associated_token_account_spec)]
pub fn create_associated_token_account(
    payer: usize,
    holding: usize,
    mint: usize,
    system_program: usize,
    token_program: usize,
    associated_token_program: usize,
    rent: usize,
) -> (step: Step)
    ensures
        step == create_associated_token_account_spec(
            payer,
            holding,
            mint,
            system_program,
            token_program,
            associated_token_program,
            rent,
        ),
{
    Step {
        call: Call::CreateHoldingAccount {
            flavor: TokenFlavor::Classic,
            idempotent: false,
            payer,
            holding,
            holder: payer,
            mint,
            system_program,
            token_program,
            associated_token_program,
            rent,
        },
        signer: Signer::Nobody,
    }
}

/// The step that mints one unit into `destination`, signed by the authority.
pub open spec fn mint_token_spec(
    mint: usize,
    destination: usize,
    authority: usize,
    authority_bump: u8,
) -> Step {
    Step {
        call: Call::MintUnit {
            amount: 1,
            mint,
            destination,
            authority,
            token_program: None,
            countersigned: false,
        },
        signer: Signer::Authority { bump: authority_bump },
    }
}

/// Plans the minting of one unit, signed by the authority.
#[verifier::when_used_as_spec(mint_token_spec)]
pub fn mint_token(mint: usize, destination: usize, authority: usize, authority_bump: u8) -> (step:
    Step)
    ensures
        step == mint_token_spec(mint, destination, authority, authority_bump),
{
    Step {
        call: Call::MintUnit {
            amount: 1,
            mint,
            destination,
            authority,
            token_program: None,
            countersigned: false,
        },
        signer: Signer::Authority { bump: authority_bump },
    }
}

} // verus!
