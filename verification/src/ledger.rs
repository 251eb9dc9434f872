//! The issuance ledger: one fixed-size record for each claimant and round,
//! at the address derived for them.

use vstd::prelude::*;
use crate::account::AccountView;
use crate::address::Derivation;
use crate::error::IssuanceError;

verus! {

/// The two shapes of a record's payload.
#[derive(Clone, Copy, Debug, PartialEq, Eq, Structural)]
pub enum RecordKind {
    /// One byte, 1 for "issued".
    Flag,
    /// The 32 bytes of the address of what was issued.
    Reference,
}

impl RecordKind {
    /// The size of the payload in bytes.
    pub open spec fn size_spec(self) -> nat {
        match self {
            RecordKind::Flag => 1,
            RecordKind::Reference => 32,
        }
    }

    /// The size of the payload in bytes.
    pub fn size(&self) -> (n: usize)
        ensures
            n == self.size_spec(),
    {
        match self {
            RecordKind::Flag => 1,
            RecordKind::Reference => 32,
        }
    }
}

/// A record exists where storage has been allocated and this program owns it.
pub open spec fn exists_spec(record: AccountView, program_id: Seq<u8>) -> bool {
    record.data@.len() > 0 && record.owner@ == program_id
}

/// `count` zero bytes.
pub open spec fn zeros(count: nat) -> Seq<u8> {
    Seq::new(count, |i: int| 0u8)
}

/// A record as `create` leaves it: owned by the program, its payload zeroed.
pub open spec fn created_spec(
    record: AccountView,
    kind: RecordKind,
    program_id: [u8; 32],
    deposit: u64,
    after: AccountView,
) -> bool {
    &&& after.key == record.key
    &&& after.is_signer == record.is_signer
    &&& after.owner == program_id
    &&& after.lamports == deposit
    &&& after.data@ == zeros(kind.size_spec())
}

/// The bytes of a record after `value` was written over its first bytes.
pub open spec fn overwritten(data: Seq<u8>, value: Seq<u8>) -> Seq<u8> {
    value + data.skip(value.len() as int)
}

/// Tells whether a record has been created for the account.
pub fn record_exists(record: &AccountView, program_id: &[u8; 32]) -> (r: bool)
    ensures
        r == exists_spec(*record, program_id@),
{
    record.data.len() > 0 && record.is_owned_by(program_id)
}

/// A vector of `count` zero bytes.
pub fn zeroed(count: usize) -> (bytes: Vec<u8>)
    ensures
        bytes@ == zeros(count as nat),
{
    let mut bytes: Vec<u8> = Vec::with_capacity(count);
    let mut i: usize = 0;
    while i < count
        invariant
            i <= count,
            bytes@ == zeros(i as nat),
        decreases count - i,
    {
        bytes.push(0u8);
        assert(bytes@ =~= zeros((i + 1) as nat));
        i += 1;
    }
    bytes
}

/// Creates the record: allocates a zeroed payload of the kind's size, owned
/// by the program and holding `deposit`. The account has to be the one that
/// `derivation` names, and nothing may be stored there yet; otherwise the
/// account is left as it was.
pub fn create(
    record: &mut AccountView,
    kind: RecordKind,
    derivation: &Derivation,
    program_id: &[u8; 32],
    deposit: u64,
) -> (r: Result<(), IssuanceError>)
    ensures
        old(record).key@ != derivation.address@ ==> r == Err::<(), IssuanceError>(
            IssuanceError::DerivationMismatch,
        ) && *final(record) == *old(record),
        old(record).key@ == derivation.address@ && old(record).data@.len() > 0 ==> r == Err::<
            (),
            IssuanceError,
        >(IssuanceError::InsufficientCapacity) && *final(record) == *old(record),
        old(record).key@ == derivation.address@ && old(record).data@.len() == 0 ==> r is Ok
            && created_spec(*old(record), kind, *program_id, deposit, *final(record)),
{
    if !record.is_at(&derivation.address) {
        return Err(IssuanceError::DerivationMismatch);
    }
    if record.data.len() > 0 {
        return Err(IssuanceError::InsufficientCapacity);
    }
    record.owner = *program_id;
    record.lamports = deposit;
    record.data = zeroed(kind.size());
    Ok(())
}

/// Writes `value` over the first bytes of `data` and keeps the rest.
fn overwrite(data: &Vec<u8>, value: &[u8]) -> (written: Vec<u8>)
    requires
        value@.len() <= data@.len(),
    ensures
        written@ == overwritten(data@, value@),
{
    let mut written: Vec<u8> = Vec::with_capacity(data.len());
    let mut i: usize = 0;
    while i < data.len()
        invariant
            i <= data@.len(),
            value@.len() <= data@.len(),
            written@ == overwritten(data@, value@).take(i as int),
        decreases data@.len() - i,
    {
        if i < value.len() {
            written.push(value[i]);
        } else {
            written.push(data[i]);
        }
        assert(written@ =~= overwritten(data@, value@).take(i + 1));
        i += 1;
    }
    assert(overwritten(data@, value@).take(i as int) =~= overwritten(data@, value@));
    written
}

/// Marks the record as issued: sets the flag byte to 1. Fails, and changes
/// nothing, where the record has no byte to hold it.
pub fn write_flag(record: &mut AccountView) -> (r: Result<(), IssuanceError>)
    ensures
        final(record).key == old(record).key,
        final(record).owner == old(record).owner,
        final(record).is_signer == old(record).is_signer,
        final(record).lamports == old(record).lamports,
        old(record).data@.len() < 1 ==> r == Err::<(), IssuanceError>(
            IssuanceError::InsufficientCapacity,
        ) && final(record).data@ == old(record).data@,
        old(record).data@.len() >= 1 ==> r is Ok && final(record).data@ == overwritten(
            old(record).data@,
            seq![1u8],
        ),
{
    if record.data.len() < 1 {
        return Err(IssuanceError::InsufficientCapacity);
    }
    let flag: [u8; 1] = [1u8];
    assert(flag@ =~= seq![1u8]);
    record.data = overwrite(&record.data, flag.as_slice());
    Ok(())
}

/// Stores in the record the address of what was issued. Fails, and changes
/// nothing, where the record is smaller than an address.
pub fn write_reference(record: &mut AccountView, value: &[u8; 32]) -> (r: Result<
    (),
    IssuanceError,
>)
    ensures
        final(record).key == old(record).key,
        final(record).owner == old(record).owner,
        final(record).is_signer == old(record).is_signer,
        final(record).lamports == old(record).lamports,
        old(record).data@.len() < 32 ==> r == Err::<(), IssuanceError>(
            IssuanceError::InsufficientCapacity,
        ) && final(record).data@ == old(record).data@,
        old(record).data@.len() >= 32 ==> r is Ok && final(record).data@ == overwritten(
            old(record).data@,
            value@,
        ),
{
    if record.data.len() < 32 {
        return Err(IssuanceError::InsufficientCapacity);
    }
    record.data = overwrite(&record.data, value.as_slice());
    Ok(())
}

/// Reads the flag of a record: whether its first byte is 1.
pub fn read_flag(record: &AccountView) -> (issued: bool)
    ensures
        issued == (record.data@.len() >= 1 && record.data@[0] == 1),
{
    record.data.len() >= 1 && record.data[0] == 1
}

/// Reads the reference that a record holds, if it is large enough for one.
pub fn read_reference(record: &AccountView) -> (value: Option<[u8; 32]>)
    ensures
        record.data@.len() < 32 ==> value is None,
        record.data@.len() >= 32 ==> value is Some && value->Some_0@ == record.data@.take(32),
{
    if record.data.len() < 32 {
        return None;
    }
    let mut value: [u8; 32] = [0u8; 32];
    let mut i: usize = 0;
    while i < 32
        invariant
            i <= 32,
            record.data@.len() >= 32,
            forall|j: int| 0 <= j < i ==> value@[j] == record.data@[j],
        decreases 32 - i,
    {
        value[i] = record.data[i];
        i += 1;
    }
    assert(value@ =~= record.data@.take(32));
    Some(value)
}

/// The balance of the beneficiary and of the record would together leave the
/// range of 64 bits.
pub open spec fn reclaim_overflows(record: AccountView, beneficiary: AccountView) -> bool {
    beneficiary.lamports + record.lamports > u64::MAX
}

/// Why a record cannot be torn down, if it cannot.
pub open spec fn reclaim_error(
    record: AccountView,
    beneficiary: AccountView,
    derivation: Derivation,
) -> Option<IssuanceError> {
    if record.key@ != derivation.address@ {
        Some(IssuanceError::DerivationMismatch)
    } else if reclaim_overflows(record, beneficiary) {
        Some(IssuanceError::ArithmeticOverflow)
    } else {
        None
    }
}

/// Tears a record down: its whole balance goes to the beneficiary and its
/// payload is zeroed. The record has to be the one that `derivation` names,
/// which only who knows the claimant can derive. Where it is not, or where the
/// beneficiary's balance would leave the range of 64 bits, nothing changes.
pub fn reclaim(
    record: &mut AccountView,
    beneficiary: &mut AccountView,
    derivation: &Derivation,
) -> (r: Result<(), IssuanceError>)
    ensures
        final(record).key == old(record).key,
        final(record).owner == old(record).owner,
        final(record).is_signer == old(record).is_signer,
        final(beneficiary).key == old(beneficiary).key,
        final(beneficiary).owner == old(beneficiary).owner,
        final(beneficiary).is_signer == old(beneficiary).is_signer,
        final(beneficiary).data == old(beneficiary).data,
        r is Err ==> reclaim_error(*old(record), *old(beneficiary), *derivation) == Some(r->Err_0)
            && final(record).lamports == old(record).lamports && final(record).data@ == old(record).data@ && final(beneficiary).lamports == old(beneficiary).lamports,
        r is Ok ==> reclaim_error(*old(record), *old(beneficiary), *derivation) is None && final(beneficiary).lamports == old(beneficiary).lamports + old(record).lamports && final(record).lamports
            == 0 && final(record).data@ == zeros(old(record).data@.len()),
{
    if !record.is_at(&derivation.address) {
        return Err(IssuanceError::DerivationMismatch);
    }
    if record.lamports > u64::MAX - beneficiary.lamports {
        return Err(IssuanceError::ArithmeticOverflow);
    }
    beneficiary.lamports = beneficiary.lamports + record.lamports;
    record.lamports = 0;
    record.data = zeroed(record.data.len());
    Ok(())
}

/// A record that was created and then written exists: whatever is written
/// over the payload, the storage is there and the program owns it.
pub proof fn law_written_record_exists(
    before: AccountView,
    kind: RecordKind,
    program_id: [u8; 32],
    deposit: u64,
    created: AccountView,
    value: Seq<u8>,
    written: AccountView,
)
    requires
        created_spec(before, kind, program_id, deposit, created),
        value.len() <= kind.size_spec(),
        written.owner == created.owner,
        written.data@ == overwritten(created.data@, value),
    ensures
        exists_spec(created, program_id@),
        exists_spec(written, program_id@),
{
}

} // verus!
