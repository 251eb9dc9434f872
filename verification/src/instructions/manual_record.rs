//! Creates the record of a claimant by hand, in the wide address space.

use vstd::prelude::*;
use crate::account::AccountView;
use crate::checks::{
    check_count, check_length, check_record, check_signer, count_error, length_error, record_error,
    signer_error,
};
use crate::eligibility::{expected_record, first, Deployment};
use crate::error::IssuanceError;
use crate::payload::{le_u64, le_u64_spec};
use crate::pipeline::outcome_is;
use crate::plan::{Call, Owner, RecordSchema, ReferenceSource, Signer, Step};

verus! {

/// Where the claimant's record stands among the accounts.
pub const RECORD: usize = 0;

/// Where the payer stands among the accounts.
pub const PAYER: usize = 1;

/// Where the system program stands among the accounts.
pub const SYSTEM_PROGRAM: usize = 2;

/// The first check that the request fails, in the order in which the checks
/// are made; `None` where it passes them all.
pub open spec fn rejection_spec(
    deployment: Deployment,
    accounts: Seq<AccountView>,
    data: Seq<u8>,
) -> Option<IssuanceError> {
    first(
        length_error(data, 40),
        first(
            count_error(accounts, 3),
            first(
                signer_error(accounts[PAYER as int]),
                record_error(
                    deployment.program_id@,
                    RecordSchema::Wide,
                    le_u64_spec(data.subrange(0, 8)) as u64,
                    accounts[PAYER as int].key@,
                    accounts[RECORD as int],
                ),
            ),
        ),
    )
}

/// The steps of a request that passed the checks, in their order.
pub open spec fn plan_spec(round: u64, record_bump: u8) -> Seq<Step> {
    seq![
        Step {
            call: Call::Allocate {
                payer: PAYER,
                account: RECORD,
                system_program: SYSTEM_PROGRAM,
                space: 32,
                owner: Owner::Engine,
            },
            signer: Signer::Record {
                schema: RecordSchema::Wide,
                round,
                claimant: PAYER,
                bump: record_bump,
            },
        },
        Step {
            call: Call::WriteReference {
                record: RECORD,
                source: ReferenceSource::Payload(8),
            },
            signer: Signer::Nobody,
        },
    ]
}

/// What the request comes to: the first check that it fails, or its plan.
pub open spec fn outcome_spec(
    deployment: Deployment,
    accounts: Seq<AccountView>,
    data: Seq<u8>,
) -> Result<Seq<Step>, IssuanceError> {
    match rejection_spec(deployment, accounts, data) {
        Some(e) => Err(e),
        None => Ok(plan_spec(
            le_u64_spec(data.subrange(0, 8)) as u64,
            expected_record(
                deployment.program_id@,
                RecordSchema::Wide,
                le_u64_spec(data.subrange(0, 8)) as u64,
                accounts[PAYER as int].key@,
            )->Some_0.1,
        )),
    }
}

/// Reads a round of eight bytes and a mint's address from the payload and
/// plans the record of the payer for that round, holding that address.
pub fn process_instruction(deployment: &Deployment, accounts: &[AccountView], data: &[u8]) -> (r:
    Result<Vec<Step>, IssuanceError>)
    ensures
        outcome_is(r, outcome_spec(*deployment, accounts@, data@)),
{
    check_length(data, 40)?;
    let round = le_u64(data, 0);
    check_count(accounts, 3)?;
    check_signer(&accounts[PAYER])?;
    let record_bump = check_record(
        &deployment.program_id,
        RecordSchema::Wide,
        round,
        &accounts[PAYER].key,
        &accounts[RECORD],
    )?;
    let steps = vec![
        Step {
            call: Call::Allocate {
                payer: PAYER,
                account: RECORD,
                system_program: SYSTEM_PROGRAM,
                space: 32,
                owner: Owner::Engine,
            },
            signer: Signer::Record {
                schema: RecordSchema::Wide,
                round,
                claimant: PAYER,
                bump: record_bump,
            },
        },
        Step {
            call: Call::WriteReference {
                record: RECORD,
                source: ReferenceSource::Payload(8),
            },
            signer: Signer::Nobody,
        },
    ];
    assert(steps@ =~= plan_spec(round, record_bump));
    Ok(steps)
}

} // verus!
