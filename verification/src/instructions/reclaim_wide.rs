//! Tears down the record of a claimant in the address space of the tag `minted`.

use vstd::prelude::*;
use crate::account::AccountView;
use crate::checks::{
    check_count, check_overflow, check_owner, check_record, check_short, check_signer, count_error,
    overflow_error, owner_error, record_error, short_error, signer_error,
};
use crate::eligibility::{expected_record, first, rejection, Deployment, RequestShape};
use crate::error::IssuanceError;
use crate::ledger::reclaim_overflows;
use crate::payload::le_u64_spec;
use crate::pipeline::outcome_is;
use crate::plan::{Call, RecordSchema, Signer, Step};

verus! {

/// Where the payer stands among the accounts.
pub const PAYER: usize = 0;

/// Where the claimant's record stands among the accounts.
pub const RECORD: usize = 1;

/// The first check that the request fails, in the order in which the checks
/// are made; `None` where it passes them all.
pub open spec fn rejection_spec(
    deployment: Deployment,
    accounts: Seq<AccountView>,
    data: Seq<u8>,
) -> Option<IssuanceError> {
    first(
        count_error(accounts, 2),
        first(
            signer_error(accounts[PAYER as int]),
            first(
                owner_error(accounts[RECORD as int], deployment.program_id),
                first(
                    short_error(data, 1),
                    first(
                        record_error(
                            deployment.program_id@,
                            RecordSchema::Wide,
                            data[0] as u64,
                            accounts[PAYER as int].key@,
                            accounts[RECORD as int],
                        ),
                        overflow_error(accounts[RECORD as int], accounts[PAYER as int]),
                    ),
                ),
            ),
        ),
    )
}

/// The steps of a request that passed the checks, in their order.
pub open spec fn plan_spec(round: u64) -> Seq<Step> {
    seq![
        Step {
            call: Call::Release {
                record: RECORD,
                beneficiary: PAYER,
                schema: RecordSchema::Wide,
                round,
            },
            signer: Signer::Nobody,
        },
    ]
}

/// What the request comes to: the first check that it fails, or its plan.
pub open spec fn outcome_spec(
    deployment: Deployment,
    accounts: Seq<AccountView>,
    data: Seq<u8>,
) -> Result<Seq<Step>, IssuanceError> {
    match rejection_spec(deployment, accounts, data) {
        Some(e) => Err(e),
        None => Ok(plan_spec(data[0] as u64)),
    }
}

/// Checks that the payer is the claimant whose record this is, and plans
/// the release: the record's balance goes to the payer and its bytes are zeroed.
pub fn process_instruction(deployment: &Deployment, accounts: &[AccountView], data: &[u8]) -> (r:
    Result<Vec<Step>, IssuanceError>)
    ensures
        outcome_is(r, outcome_spec(*deployment, accounts@, data@)),
{
    check_count(accounts, 2)?;
    check_signer(&accounts[PAYER])?;
    check_owner(&accounts[RECORD], &deployment.program_id)?;
    check_short(data, 1)?;
    check_record(
        &deployment.program_id,
        RecordSchema::Wide,
        data[0] as u64,
        &accounts[PAYER].key,
        &accounts[RECORD],
    )?;
    check_overflow(&accounts[RECORD], &accounts[PAYER])?;
    let round = data[0] as u64;
    let steps = vec![
        Step {
            call: Call::Release {
                record: RECORD,
                beneficiary: PAYER,
                schema: RecordSchema::Wide,
                round,
            },
            signer: Signer::Nobody,
        },
    ];
    assert(steps@ =~= plan_spec(round));
    Ok(steps)
}

/// Whoever was served can tear the record down. Take a request that passed
/// every check of an issuance in this address space, so that the record was
/// allocated at the address that the issuance signed for. The same payer, with
/// that record and the same round, passes every check here: the address that
/// is expected here is the one that was signed for there.
pub proof fn law_reclaim_finds_issued_record(
    shape: RequestShape,
    deployment: Deployment,
    issued: Seq<AccountView>,
    request: Seq<u8>,
    accounts: Seq<AccountView>,
    data: Seq<u8>,
)
    requires
        shape.schema == RecordSchema::Wide,
        rejection(shape, deployment, issued, request) is None,
        accounts.len() >= 2,
        accounts[PAYER as int].is_signer,
        accounts[PAYER as int].key == issued[shape.payer as int].key,
        accounts[RECORD as int].key == issued[shape.record as int].key,
        accounts[RECORD as int].owner@ == deployment.program_id@,
        data.len() >= 1,
        data[0] == request[0],
        !reclaim_overflows(accounts[RECORD as int], accounts[PAYER as int]),
    ensures
        expected_record(
            deployment.program_id@,
            RecordSchema::Wide,
            data[0] as u64,
            accounts[PAYER as int].key@,
        ) == expected_record(
            deployment.program_id@,
            shape.schema,
            request[0] as u64,
            issued[shape.payer as int].key@,
        ),
        outcome_spec(deployment, accounts, data) is Ok,
{
}

/// A record that was made by hand is torn down the same way: where its
/// round fits into the one byte that names it here, the payer who made it
/// passes every check with that byte.
pub proof fn law_reclaim_finds_manual_record(
    deployment: Deployment,
    made: Seq<AccountView>,
    request: Seq<u8>,
    accounts: Seq<AccountView>,
    data: Seq<u8>,
)
    requires
        crate::instructions::manual_record::rejection_spec(deployment, made, request) is None,
        accounts.len() >= 2,
        accounts[PAYER as int].is_signer,
        accounts[PAYER as int].key == made[crate::instructions::manual_record::PAYER as int].key,
        accounts[RECORD as int].key == made[crate::instructions::manual_record::RECORD as int].key,
        accounts[RECORD as int].owner@ == deployment.program_id@,
        data.len() >= 1,
        data[0] as int == le_u64_spec(request.subrange(0, 8)),
        !reclaim_overflows(accounts[RECORD as int], accounts[PAYER as int]),
    ensures
        outcome_spec(deployment, accounts, data) is Ok,
{
    assert(data[0] as u64 == le_u64_spec(request.subrange(0, 8)) as u64);
}

} // verus!
