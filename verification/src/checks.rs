//! The single checks that requests are held to, each with the reason it
//! gives when it fails.

use vstd::prelude::*;
use crate::account::AccountView;
use crate::address::{base58_address, parse_address};
use crate::eligibility::{derived_at, expected_record, finding};
use crate::error::IssuanceError;
use crate::hash_chain::hash_eq;
use crate::ledger::reclaim_overflows;
use crate::plan::RecordSchema;

verus! {

/// Fewer accounts were passed than are read.
pub open spec fn count_error(accounts: Seq<AccountView>, needed: usize) -> Option<IssuanceError> {
    if accounts.len() < needed {
        Some(IssuanceError::NotEnoughAccounts)
    } else {
        None
    }
}

/// The account did not sign.
pub open spec fn signer_error(account: AccountView) -> Option<IssuanceError> {
    if account.is_signer {
        None
    } else {
        Some(IssuanceError::AuthorizationMissing)
    }
}

/// The account is not the program that is expected at its place.
pub open spec fn program_error(account: AccountView, expected: [u8; 32]) -> Option<
    IssuanceError,
> {
    if account.key@ == expected@ {
        None
    } else {
        Some(IssuanceError::IncorrectProgram)
    }
}

/// The account is not owned by the program.
pub open spec fn owner_error(account: AccountView, program_id: [u8; 32]) -> Option<
    IssuanceError,
> {
    if account.owner@ == program_id@ {
        None
    } else {
        Some(IssuanceError::IncorrectProgram)
    }
}

/// The account is not at the address that the base-58 text names.
pub open spec fn fixed_error(account: AccountView, text: &str) -> Option<IssuanceError> {
    if base58_address(text@) == Some(account.key@) {
        None
    } else {
        Some(IssuanceError::DerivationMismatch)
    }
}

/// The account is not at the address that the payload names at `offset`.
pub open spec fn named_error(account: AccountView, data: Seq<u8>, offset: int) -> Option<
    IssuanceError,
> {
    if account.key@ == data.subrange(offset, offset + 32) {
        None
    } else {
        Some(IssuanceError::DerivationMismatch)
    }
}

/// The payload is shorter than `needed` bytes.
pub open spec fn short_error(data: Seq<u8>, needed: usize) -> Option<IssuanceError> {
    if data.len() < needed {
        Some(IssuanceError::ParseError)
    } else {
        None
    }
}

/// The payload is not `needed` bytes long.
pub open spec fn length_error(data: Seq<u8>, needed: usize) -> Option<IssuanceError> {
    if data.len() != needed {
        Some(IssuanceError::ParseError)
    } else {
        None
    }
}

/// The round is not in a registry of `rounds` rounds.
pub open spec fn round_error(round: u8, rounds: nat) -> Option<IssuanceError> {
    if round as nat >= rounds {
        Some(IssuanceError::InvalidRound)
    } else {
        None
    }
}

/// The account is not at the address derived for the claimant's record.
pub open spec fn record_error(
    program_id: Seq<u8>,
    schema: RecordSchema,
    round: u64,
    identity: Seq<u8>,
    record: AccountView,
) -> Option<IssuanceError> {
    if derived_at(expected_record(program_id, schema, round, identity), record) {
        None
    } else {
        Some(IssuanceError::DerivationMismatch)
    }
}

/// The account stores fewer than `needed` bytes.
pub open spec fn capacity_error(account: AccountView, needed: usize) -> Option<IssuanceError> {
    if account.data@.len() < needed {
        Some(IssuanceError::InsufficientCapacity)
    } else {
        None
    }
}

/// The two balances do not fit into one.
pub open spec fn overflow_error(record: AccountView, beneficiary: AccountView) -> Option<
    IssuanceError,
> {
    if reclaim_overflows(record, beneficiary) {
        Some(IssuanceError::ArithmeticOverflow)
    } else {
        None
    }
}

/// The account holds less than `amount`.
pub open spec fn funds_error(account: AccountView, amount: u64) -> Option<IssuanceError> {
    if account.lamports < amount {
        Some(IssuanceError::InsufficientFunds)
    } else {
        None
    }
}

/// Checks that enough accounts were passed.
pub fn check_count(accounts: &[AccountView], needed: usize) -> (r: Result<(), IssuanceError>)
    ensures
        finding(r, count_error(accounts@, needed)),
{
    if accounts.len() < needed {
        Err(IssuanceError::NotEnoughAccounts)
    } else {
        Ok(())
    }
}

/// Checks that the account signed.
pub fn check_signer(account: &AccountView) -> (r: Result<(), IssuanceError>)
    ensures
        finding(r, signer_error(*account)),
{
    if account.is_signer {
        Ok(())
    } else {
        Err(IssuanceError::AuthorizationMissing)
    }
}

/// Checks that the account is the program `expected`.
pub fn check_program(account: &AccountView, expected: &[u8; 32]) -> (r: Result<
    (),
    IssuanceError,
>)
    ensures
        finding(r, program_error(*account, *expected)),
{
    if account.is_at(expected) {
        Ok(())
    } else {
        Err(IssuanceError::IncorrectProgram)
    }
}

/// Checks that the program owns the account.
pub fn check_owner(account: &AccountView, program_id: &[u8; 32]) -> (r: Result<
    (),
    IssuanceError,
>)
    ensures
        finding(r, owner_error(*account, *program_id)),
{
    if account.is_owned_by(program_id) {
        Ok(())
    } else {
        Err(IssuanceError::IncorrectProgram)
    }
}

/// Checks that the account is at the address that a base-58 text names.
pub fn check_fixed(account: &AccountView, text: &str) -> (r: Result<(), IssuanceError>)
    ensures
        finding(r, fixed_error(*account, text)),
{
    match parse_address(text) {
        Some(expected) => {
            if account.is_at(&expected) {
                Ok(())
            } else {
                Err(IssuanceError::DerivationMismatch)
            }
        },
        None => Err(IssuanceError::DerivationMismatch),
    }
}

/// Checks that the account is at the address that the payload names.
pub fn check_named(account: &AccountView, data: &[u8], offset: usize) -> (r: Result<
    (),
    IssuanceError,
>)
    requires
        offset + 32 <= data@.len(),
    ensures
        finding(r, named_error(*account, data@, offset as int)),
{
    let named = crate::payload::address_at(data, offset);
    if hash_eq(&account.key, &named) {
        Ok(())
    } else {
        Err(IssuanceError::DerivationMismatch)
    }
}

/// Checks that the payload has at least `needed` bytes.
pub fn check_short(data: &[u8], needed: usize) -> (r: Result<(), IssuanceError>)
    ensures
        finding(r, short_error(data@, needed)),
{
    if data.len() < needed {
        Err(IssuanceError::ParseError)
    } else {
        Ok(())
    }
}

/// Checks that the payload has exactly `needed` bytes.
pub fn check_length(data: &[u8], needed: usize) -> (r: Result<(), IssuanceError>)
    ensures
        finding(r, length_error(data@, needed)),
{
    if data.len() != needed {
        Err(IssuanceError::ParseError)
    } else {
        Ok(())
    }
}

/// Checks that the round is one of `rounds` rounds.
pub fn check_round(round: u8, rounds: usize) -> (r: Result<(), IssuanceError>)
    ensures
        finding(r, round_error(round, rounds as nat)),
{
    if round as usize >= rounds {
        Err(IssuanceError::InvalidRound)
    } else {
        Ok(())
    }
}

/// Checks that the account is at the address of the claimant's record, and
/// gives the bump seed of that address.
pub fn check_record(
    program_id: &[u8; 32],
    schema: RecordSchema,
    round: u64,
    identity: &[u8; 32],
    record: &AccountView,
) -> (r: Result<u8, IssuanceError>)
    ensures
        finding(r, record_error(program_id@, schema, round, identity@, *record)),
        r is Ok ==> r->Ok_0 == expected_record(program_id@, schema, round, identity@)->Some_0.1,
{
    let tag = schema.tag();
    let seed = schema.round_seed(round);
    match crate::address::record_address(program_id, tag.as_slice(), seed.as_slice(), identity) {
        Some(derivation) => {
            if record.is_at(&derivation.address) {
                Ok(derivation.bump)
            } else {
                Err(IssuanceError::DerivationMismatch)
            }
        },
        None => Err(IssuanceError::DerivationMismatch),
    }
}

/// Checks that the account stores at least `needed` bytes.
pub fn check_capacity(account: &AccountView, needed: usize) -> (r: Result<(), IssuanceError>)
    ensures
        finding(r, capacity_error(*account, needed)),
{
    if account.data.len() < needed {
        Err(IssuanceError::InsufficientCapacity)
    } else {
        Ok(())
    }
}

/// Checks that the record's balance and the beneficiary's fit into one.
pub fn check_overflow(record: &AccountView, beneficiary: &AccountView) -> (r: Result<
    (),
    IssuanceError,
>)
    ensures
        finding(r, overflow_error(*record, *beneficiary)),
{
    if record.lamports > u64::MAX - beneficiary.lamports {
        Err(IssuanceError::ArithmeticOverflow)
    } else {
        Ok(())
    }
}

/// Checks that the account holds at least `amount`.
pub fn check_funds(account: &AccountView, amount: u64) -> (r: Result<(), IssuanceError>)
    ensures
        finding(r, funds_error(*account, amount)),
{
    if account.lamports < amount {
        Err(IssuanceError::InsufficientFunds)
    } else {
        Ok(())
    }
}

} // verus!
