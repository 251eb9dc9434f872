use allowlist_mint::account::AccountView;
use allowlist_mint::address::{record_address, Derivation, EXTENDED_RECORD_TAG};
use allowlist_mint::error::IssuanceError;
use allowlist_mint::ledger::{
    create, read_flag, read_reference, reclaim, record_exists, write_flag, write_reference,
    zeroed, RecordKind,
};

const PROGRAM: [u8; 32] = [42u8; 32];
const X: [u8; 32] = [7u8; 32];
const MINT: [u8; 32] = [3u8; 32];

fn derivation() -> Derivation {
    record_address(&PROGRAM, &EXTENDED_RECORD_TAG, &[3u8], &X).unwrap()
}

fn blank(key: [u8; 32]) -> AccountView {
    AccountView { key, owner: [0u8; 32], is_signer: false, lamports: 0, data: vec![] }
}

#[test]
fn record_kinds_have_their_sizes() {
    assert_eq!(RecordKind::Flag.size(), 1);
    assert_eq!(RecordKind::Reference.size(), 32);
    assert_eq!(zeroed(0), Vec::<u8>::new());
    assert_eq!(zeroed(3), vec![0u8, 0, 0]);
}

#[test]
fn a_record_exists_once_it_has_bytes_and_the_program_owns_it() {
    let mut record = blank(derivation().address);
    assert!(!record_exists(&record, &PROGRAM));
    record.data = vec![0u8; 32];
    assert!(!record_exists(&record, &PROGRAM));
    record.owner = PROGRAM;
    assert!(record_exists(&record, &PROGRAM));
    record.data = vec![];
    assert!(!record_exists(&record, &PROGRAM));
    record.data = vec![1u8];
    assert!(record_exists(&record, &PROGRAM));
    assert!(!record_exists(&record, &X));
}

#[test]
fn create_allocates_a_zeroed_record_once() {
    let d = derivation();
    let mut record = blank(d.address);
    assert_eq!(create(&mut record, RecordKind::Reference, &d, &PROGRAM, 1000), Ok(()));
    assert_eq!(
        record,
        AccountView {
            key: d.address,
            owner: PROGRAM,
            is_signer: false,
            lamports: 1000,
            data: vec![0u8; 32],
        }
    );
    assert!(record_exists(&record, &PROGRAM));
    let before = record.clone();
    assert_eq!(
        create(&mut record, RecordKind::Reference, &d, &PROGRAM, 5),
        Err(IssuanceError::InsufficientCapacity)
    );
    assert_eq!(record, before);
}

#[test]
fn create_allocates_one_byte_for_a_flag() {
    let d = derivation();
    let mut record = blank(d.address);
    assert_eq!(create(&mut record, RecordKind::Flag, &d, &PROGRAM, 9), Ok(()));
    assert_eq!(record.data, vec![0u8]);
    assert!(!read_flag(&record));
    assert_eq!(write_flag(&mut record), Ok(()));
    assert_eq!(record.data, vec![1u8]);
    assert!(read_flag(&record));
    assert_eq!(read_reference(&record), None);
}

#[test]
fn create_refuses_an_account_at_another_address() {
    let d = derivation();
    let mut record = blank(X);
    assert_eq!(
        create(&mut record, RecordKind::Reference, &d, &PROGRAM, 1000),
        Err(IssuanceError::DerivationMismatch)
    );
    assert_eq!(record, blank(X));
}

#[test]
fn write_reference_stores_the_address_and_keeps_the_rest() {
    let d = derivation();
    let mut record = blank(d.address);
    create(&mut record, RecordKind::Reference, &d, &PROGRAM, 1000).unwrap();
    assert_eq!(write_reference(&mut record, &MINT), Ok(()));
    assert_eq!(record.data, MINT.to_vec());
    assert_eq!(read_reference(&record), Some(MINT));
    assert_eq!(record.lamports, 1000);
    assert_eq!(record.owner, PROGRAM);

    let mut long = blank(d.address);
    long.data = vec![9u8; 40];
    assert_eq!(write_reference(&mut long, &MINT), Ok(()));
    let mut expected = MINT.to_vec();
    expected.extend_from_slice(&[9u8; 8]);
    assert_eq!(long.data, expected);
    assert_eq!(read_reference(&long), Some(MINT));
}

#[test]
fn writes_fail_where_the_record_is_too_small() {
    let d = derivation();
    let mut record = blank(d.address);
    assert_eq!(write_flag(&mut record), Err(IssuanceError::InsufficientCapacity));
    assert_eq!(write_reference(&mut record, &MINT), Err(IssuanceError::InsufficientCapacity));
    record.data = vec![0u8; 31];
    assert_eq!(write_reference(&mut record, &MINT), Err(IssuanceError::InsufficientCapacity));
    assert_eq!(record.data, vec![0u8; 31]);
    assert_eq!(write_flag(&mut record), Ok(()));
    let mut expected = vec![0u8; 31];
    expected[0] = 1;
    assert_eq!(record.data, expected);
}

#[test]
fn reclaim_moves_the_balance_and_zeroes_the_bytes() {
    let d = derivation();
    let mut record = blank(d.address);
    create(&mut record, RecordKind::Reference, &d, &PROGRAM, 1000).unwrap();
    write_reference(&mut record, &MINT).unwrap();
    let mut payer = blank(X);
    payer.lamports = 234;
    payer.is_signer = true;
    assert_eq!(reclaim(&mut record, &mut payer, &d), Ok(()));
    assert_eq!(payer.lamports, 1234);
    assert_eq!(record.lamports, 0);
    assert_eq!(record.data, vec![0u8; 32]);
    assert_eq!(record.owner, PROGRAM);
    assert_eq!(record.key, d.address);
    assert!(payer.is_signer);
}

#[test]
fn reclaim_changes_nothing_where_the_balance_would_overflow() {
    let d = derivation();
    let mut record = blank(d.address);
    record.lamports = 2;
    record.data = vec![5u8; 32];
    let mut payer = blank(X);
    payer.lamports = u64::MAX - 1;
    let before = (record.clone(), payer.clone());
    assert_eq!(reclaim(&mut record, &mut payer, &d), Err(IssuanceError::ArithmeticOverflow));
    assert_eq!((record.clone(), payer.clone()), before);
    record.lamports = 1;
    assert_eq!(reclaim(&mut record, &mut payer, &d), Ok(()));
    assert_eq!(payer.lamports, u64::MAX);
}

#[test]
fn reclaim_refuses_a_record_at_another_address() {
    let d = derivation();
    let other = record_address(&PROGRAM, &EXTENDED_RECORD_TAG, &[4u8], &X).unwrap();
    let mut record = blank(d.address);
    record.lamports = 2;
    record.data = vec![5u8; 32];
    let mut payer = blank(X);
    let before = (record.clone(), payer.clone());
    assert_eq!(reclaim(&mut record, &mut payer, &other), Err(IssuanceError::DerivationMismatch));
    assert_eq!((record, payer), before);
}
