//! Sends an amount from the authority's balance to the one fixed recipient.

use vstd::prelude::*;
use crate::account::AccountView;
use crate::address::authority_address_spec;
use crate::checks::{
    check_count, check_fixed, check_funds, check_short, count_error, fixed_error, funds_error,
    short_error,
};
use crate::eligibility::{authority_error, check_authority, first, Deployment};
use crate::error::IssuanceError;
use crate::payload::{le_u64, le_u64_spec};
use crate::pipeline::outcome_is;
use crate::plan::{Call, Signer, Step};

verus! {

/// Where the signing authority stands among the accounts.
pub const AUTHORITY: usize = 0;

/// Where the recipient stands among the accounts.
pub const RECIPIENT: usize = 1;

/// Where the system program stands among the accounts.
pub const SYSTEM_PROGRAM: usize = 2;

/// The address of the recipient, in base 58.
pub const RECIPIENT_ADDRESS: &'static str = "GDi7rtknaEdvgGrm9qpXbF54ZGZMGezmXLky2VQac2c6";

/// The first check that the request fails, in the order in which the checks
/// are made; `None` where it passes them all.
pub open spec fn rejection_spec(
    deployment: Deployment,
    accounts: Seq<AccountView>,
    data: Seq<u8>,
) -> Option<IssuanceError> {
    first(
        short_error(data, 8),
        first(
            count_error(accounts, 3),
            first(
                fixed_error(accounts[RECIPIENT as int], RECIPIENT_ADDRESS),
                first(
                    authority_error(deployment.program_id@, accounts[AUTHORITY as int]),
                    funds_error(accounts[AUTHORITY as int], le_u64_spec(data.subrange(0, 8)) as u64),
                ),
            ),
        ),
    )
}

/// The steps of a request that passed the checks, in their order.
pub open spec fn plan_spec(amount: u64, authority_bump: u8) -> Seq<Step> {
    seq![
        Step {
            call: Call::Transfer {
                from: AUTHORITY,
                to: RECIPIENT,
                system_program: SYSTEM_PROGRAM,
                lamports: amount,
            },
            signer: Signer::Authority { bump: authority_bump },
        },
    ]
}

/// What the request comes to: the first check that it fails, or its plan.
pub open spec fn outcome_spec(
    deployment: Deployment,
    accounts: Seq<AccountView>,
    data: Seq<u8>,
) -> Result<Seq<Step>, IssuanceError> {
    match rejection_spec(deployment, accounts, data) {
        Some(e) => Err(e),
        None => Ok(plan_spec(
            le_u64_spec(data.subrange(0, 8)) as u64,
            authority_address_spec(deployment.program_id@)->Some_0.1,
        )),
    }
}

/// Reads the amount from the first eight bytes of the payload, checks the
/// recipient, the authority and its balance, and plans the transfer.
pub fn process_instruction(deployment: &Deployment, accounts: &[AccountView], data: &[u8]) -> (r:
    Result<Vec<Step>, IssuanceError>)
    ensures
        outcome_is(r, outcome_spec(*deployment, accounts@, data@)),
{
    check_short(data, 8)?;
    let amount = le_u64(data, 0);
    check_count(accounts, 3)?;
    check_fixed(&accounts[RECIPIENT], RECIPIENT_ADDRESS)?;
    let authority_bump = check_authority(&deployment.program_id, &accounts[AUTHORITY])?;
    check_funds(&accounts[AUTHORITY], amount)?;
    let steps = vec![
        Step {
            call: Call::Transfer {
                from: AUTHORITY,
                to: RECIPIENT,
                system_program: SYSTEM_PROGRAM,
                lamports: amount,
            },
            signer: Signer::Authority { bump: authority_bump },
        },
    ];
    assert(steps@ =~= plan_spec(amount, authority_bump));
    Ok(steps)
}

} // verus!
