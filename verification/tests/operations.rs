use allowlist_mint::account::{AccountView, HostPrograms};
use allowlist_mint::address::{
    authority_address, derive_address, parse_address, record_address, round_wide_seed,
    EXTENDED_RECORD_TAG, RECORD_TAG,
};
use allowlist_mint::eligibility::Deployment;
use allowlist_mint::error::IssuanceError;
use allowlist_mint::hash_chain::{combine, leaf, leaf_with_position};
use allowlist_mint::instructions::{
    collection_extended, collection_positioned, fixed_update, limited_asset, manual_record,
    plain_mint, print_edition, programmable_asset, reclaim_wide, tracked_asset,
    tracked_asset_record, tracked_programmable, universal_update, withdraw,
};
use allowlist_mint::pipeline::ledger_step;
use allowlist_mint::plan::{
    AssetStandard, Creator, collected, dimensions, infinity, plain, programmable, BytePlace, Call, Content, NewContent,
    Owner, ParsedContent, PrintSupply, RecordSchema, ReferenceSource, Signer, Step, TextRange,
    TokenFlavor,
};
use allowlist_mint::registry::RoundRegistry;
use allowlist_mint::resource::{
    create_and_init_mint_account, create_associated_token_account, mint_token,
};
use allowlist_mint::{
    clean_asset, existing_master_edition, existing_metadata, reclaim, tracked_clean_asset,
    tracked_edition, tracked_mint_metadata,
};

const PROGRAM: [u8; 32] = [42u8; 32];
const X: [u8; 32] = [7u8; 32];
const Y: [u8; 32] = [9u8; 32];

fn programs() -> HostPrograms {
    HostPrograms {
        system: solana_program::system_program::id().to_bytes(),
        token: spl_token::id().to_bytes(),
        token_2022: spl_token_2022::id().to_bytes(),
        associated_token: spl_associated_token_account::id().to_bytes(),
    }
}

fn deployment() -> Deployment {
    let pair = combine(&leaf(&X), &leaf(&Y));
    let positioned = combine(&leaf_with_position(&X, 513), &leaf(&Y));
    Deployment {
        program_id: PROGRAM,
        programs: programs(),
        registry: RoundRegistry::new(vec![leaf(&X), pair, positioned]),
    }
}

fn blank(key: [u8; 32], is_signer: bool) -> AccountView {
    AccountView { key, owner: [0u8; 32], is_signer, lamports: 0, data: vec![] }
}

fn filler(n: usize) -> Vec<AccountView> {
    (0..n).map(|i| blank([100 + i as u8; 32], false)).collect()
}

fn authority() -> [u8; 32] {
    authority_address(&PROGRAM).unwrap().address
}

fn authority_signer() -> Signer {
    Signer::Authority { bump: authority_address(&PROGRAM).unwrap().bump }
}

fn ledger_positions(plan: &[Step]) -> Vec<usize> {
    plan.iter().enumerate().filter(|(_, s)| ledger_step(s)).map(|(i, _)| i).collect()
}

// ---- tearing records down ---------------------------------------------------

fn reclaim_accounts(round: u8) -> Vec<AccountView> {
    let mut payer = blank(X, true);
    payer.lamports = 10;
    let mut record = blank(
        record_address(&PROGRAM, &EXTENDED_RECORD_TAG, &[round], &X).unwrap().address,
        false,
    );
    record.owner = PROGRAM;
    record.lamports = 5;
    record.data = vec![3u8; 32];
    vec![payer, record, blank([0u8; 32], false)]
}

#[test]
fn reclaim_plans_the_release_of_the_whole_balance() {
    let d = deployment();
    assert_eq!(
        reclaim::delete_mint_record_for_round(&d, &reclaim_accounts(1), &[1]),
        Ok(vec![Step {
            call: Call::Release {
                record: 1,
                beneficiary: 0,
                schema: RecordSchema::Extended,
                round: 1,
            },
            signer: Signer::Nobody,
        }])
    );
}

#[test]
fn reclaim_turns_down_what_it_should() {
    let d = deployment();
    let ok = reclaim_accounts(1);
    let run = |accounts: &Vec<AccountView>, data: &[u8]| {
        reclaim::delete_mint_record_for_round(&d, accounts, data)
    };
    assert_eq!(run(&ok[..2].to_vec(), &[1]), Err(IssuanceError::NotEnoughAccounts));
    let mut a = ok.clone();
    a[0].is_signer = false;
    assert_eq!(run(&a, &[1]), Err(IssuanceError::AuthorizationMissing));
    assert_eq!(run(&ok, &[]), Err(IssuanceError::ParseError));
    assert_eq!(run(&ok, &[3]), Err(IssuanceError::InvalidRound));
    let mut a = ok.clone();
    a[1].owner = X;
    assert_eq!(run(&a, &[1]), Err(IssuanceError::IncorrectProgram));
    // The record of another round, or of another claimant.
    assert_eq!(run(&ok, &[0]), Err(IssuanceError::DerivationMismatch));
    let mut a = ok.clone();
    a[0].key = Y;
    assert_eq!(run(&a, &[1]), Err(IssuanceError::DerivationMismatch));
    let mut a = ok.clone();
    a[0].lamports = u64::MAX - 4;
    assert_eq!(run(&a, &[1]), Err(IssuanceError::ArithmeticOverflow));
    a[0].lamports = u64::MAX - 5;
    assert_eq!(
        run(&a, &[1]),
        Ok(vec![Step {
            call: Call::Release {
                record: 1,
                beneficiary: 0,
                schema: RecordSchema::Extended,
                round: 1,
            },
            signer: Signer::Nobody,
        }])
    );
}

#[test]
fn the_reclaim_under_the_tag_minted_writes_the_round_wide_and_asks_for_no_bound() {
    let d = deployment();
    let mut accounts = reclaim_accounts(1);
    accounts.pop();
    assert_eq!(
        reclaim_wide::process_instruction(&d, &accounts, &[1]),
        Err(IssuanceError::DerivationMismatch)
    );
    accounts[1].key = record_address(&PROGRAM, &RECORD_TAG, &round_wide_seed(200), &X).unwrap().address;
    assert_eq!(
        reclaim_wide::process_instruction(&d, &accounts, &[200]),
        Ok(vec![Step {
            call: Call::Release {
                record: 1,
                beneficiary: 0,
                schema: RecordSchema::Wide,
                round: 200,
            },
            signer: Signer::Nobody,
        }])
    );
    assert_eq!(reclaim_wide::process_instruction(&d, &accounts, &[]), Err(IssuanceError::ParseError));
    accounts[1].owner = X;
    assert_eq!(
        reclaim_wide::process_instruction(&d, &accounts, &[]),
        Err(IssuanceError::IncorrectProgram)
    );
    assert_eq!(
        reclaim_wide::process_instruction(&d, &accounts[..1], &[200]),
        Err(IssuanceError::NotEnoughAccounts)
    );
}

// ---- the record by hand -------------------------------------------------------

#[test]
fn the_manual_record_is_derived_from_the_wide_round() {
    let d = deployment();
    let round: u64 = 0x0102_0304;
    let found = record_address(&PROGRAM, &RECORD_TAG, &round_wide_seed(round), &X).unwrap();
    let accounts = vec![blank(found.address, false), blank(X, true), blank([0u8; 32], false)];
    let mut data = round.to_le_bytes().to_vec();
    data.extend_from_slice(&[3u8; 32]);
    assert_eq!(
        manual_record::process_instruction(&d, &accounts, &data),
        Ok(vec![
            Step {
                call: Call::Allocate {
                    payer: 1,
                    account: 0,
                    system_program: 2,
                    space: 32,
                    owner: Owner::Engine,
                },
                signer: Signer::Record {
                    schema: RecordSchema::Wide,
                    round,
                    claimant: 1,
                    bump: found.bump,
                },
            },
            Step {
                call: Call::WriteReference { record: 0, source: ReferenceSource::Payload(8) },
                signer: Signer::Nobody,
            },
        ])
    );
    assert_eq!(manual_record::process_instruction(&d, &accounts, &data[..39]), Err(IssuanceError::ParseError));
    data.push(0);
    assert_eq!(manual_record::process_instruction(&d, &accounts, &data), Err(IssuanceError::ParseError));
    data.pop();
    assert_eq!(manual_record::process_instruction(&d, &accounts[..2], &data), Err(IssuanceError::NotEnoughAccounts));
    let mut a = accounts.clone();
    a[1].is_signer = false;
    assert_eq!(manual_record::process_instruction(&d, &a, &data), Err(IssuanceError::AuthorizationMissing));
    data[0] ^= 1;
    assert_eq!(manual_record::process_instruction(&d, &accounts, &data), Err(IssuanceError::DerivationMismatch));
}

// ---- descriptive records of existing mints -----------------------------------

#[test]
fn existing_metadata_marks_and_describes() {
    let d = deployment();
    let mut accounts = filler(8);
    accounts[existing_metadata::AUTHORITY].key = authority();
    accounts[existing_metadata::PAYER].is_signer = true;
    accounts[existing_metadata::METADATA].data = vec![0u8; 116];
    let run = |a: &Vec<AccountView>| existing_metadata::create_metadata_for_existing_mint(&d, a, &[]);
    assert_eq!(
        run(&accounts),
        Ok(vec![
            Step {
                call: Call::MarkStandard {
                    account: 0,
                    place: BytePlace::At(115),
                    standard: AssetStandard::Programmable,
                },
                signer: Signer::Nobody,
            },
            Step {
                call: Call::CreateMetadata {
                    metadata: 0,
                    mint: 1,
                    authority: 2,
                    payer: 3,
                    metadata_program: 4,
                    system_program: 5,
                    rent: 6,
                    token_program: 7,
                    content: plain(700),
                },
                signer: authority_signer(),
            },
        ])
    );
    accounts[0].data = vec![0u8; 115];
    assert_eq!(run(&accounts), Err(IssuanceError::InsufficientCapacity));
    accounts[2].key = X;
    assert_eq!(run(&accounts), Err(IssuanceError::DerivationMismatch));
    accounts[3].is_signer = false;
    assert_eq!(run(&accounts), Err(IssuanceError::AuthorizationMissing));
    accounts.pop();
    assert_eq!(run(&accounts), Err(IssuanceError::NotEnoughAccounts));
}

#[test]
fn existing_master_edition_marks_the_last_byte() {
    let d = deployment();
    let mut accounts = filler(10);
    accounts[existing_master_edition::AUTHORITY].key = authority();
    accounts[existing_master_edition::PAYER].is_signer = true;
    accounts[existing_master_edition::MASTER_EDITION].data = vec![0u8; 1];
    let run = |a: &Vec<AccountView>| {
        existing_master_edition::create_master_edition_for_existing_mint(&d, a, &[])
    };
    assert_eq!(
        run(&accounts),
        Ok(vec![
            Step {
                call: Call::MarkStandard {
                    account: 0,
                    place: BytePlace::Last,
                    standard: AssetStandard::Programmable,
                },
                signer: Signer::Nobody,
            },
            Step {
                call: Call::CreateMasterEdition {
                    max_supply: Some(0),
                    edition: 0,
                    metadata: 1,
                    mint: 2,
                    authority: 3,
                    payer: 4,
                    metadata_program: 5,
                    token_program: 6,
                    system_program: 7,
                    rent: 8,
                    spl_token_program: 9,
                },
                signer: authority_signer(),
            },
        ])
    );
    accounts[0].data = vec![];
    assert_eq!(run(&accounts), Err(IssuanceError::InsufficientCapacity));
    accounts[4].is_signer = false;
    assert_eq!(run(&accounts), Err(IssuanceError::AuthorizationMissing));
}

// ---- assets with no proof asked ------------------------------------------------

fn asset_accounts(n: usize, mint: usize, authority_at: usize, payer: usize) -> Vec<AccountView> {
    let mut accounts = filler(n);
    accounts[mint].is_signer = true;
    accounts[payer].is_signer = true;
    accounts[authority_at].key = authority();
    accounts
}

#[test]
fn the_clean_asset_is_one_call() {
    let d = deployment();
    let accounts = asset_accounts(10, 2, 3, 4);
    let expected = vec![Step {
        call: Call::CreateAsset {
            standard: AssetStandard::Programmable,
            decimals: 0,
            metadata: 0,
            master_edition: 1,
            mint: 2,
            authority: 3,
            payer: 4,
            update_authority: 3,
            system_program: 6,
            sysvar_instructions: 7,
            token_program: 8,
            metadata_program: Some(9),
            content: plain(700),
            collection: None,
            creator: None,
            print_supply: PrintSupply::Zero,
        },
        signer: authority_signer(),
    }];
    assert_eq!(clean_asset::create_clean_nft_and_mint(&d, &accounts, &[]), Ok(expected.clone()));
    assert_eq!(clean_asset::create_clean_nft_and_ata(&d, &accounts, &[]), Ok(expected));
    assert_eq!(
        clean_asset::create_clean_nft_and_ata(&d, &accounts[..9], &[]),
        Err(IssuanceError::NotEnoughAccounts)
    );
    let mut a = accounts.clone();
    a[2].is_signer = false;
    assert_eq!(clean_asset::create_clean_nft_and_mint(&d, &a, &[]), Err(IssuanceError::AuthorizationMissing));
    let mut a = accounts.clone();
    a[3].key = X;
    assert_eq!(clean_asset::create_clean_nft_and_mint(&d, &a, &[]), Err(IssuanceError::DerivationMismatch));
}

#[test]
fn the_limited_asset_allows_one_print() {
    let d = deployment();
    let accounts = asset_accounts(9, 2, 3, 4);
    let plan = limited_asset::process_create_limited_nft(&d, &accounts, &[]).unwrap();
    assert_eq!(
        plan,
        vec![Step {
            call: Call::CreateAsset {
                standard: AssetStandard::Programmable,
                decimals: 0,
                metadata: 0,
                master_edition: 1,
                mint: 2,
                authority: 3,
                payer: 4,
                update_authority: 3,
                system_program: 6,
                sysvar_instructions: 7,
                token_program: 8,
                metadata_program: None,
                content: plain(700),
                collection: None,
                creator: None,
                print_supply: PrintSupply::Limited(1),
            },
            signer: authority_signer(),
        }]
    );
    assert_eq!(
        limited_asset::process_create_limited_nft(&d, &accounts[..8], &[]),
        Err(IssuanceError::NotEnoughAccounts)
    );
}

#[test]
fn the_programmable_asset_is_created_and_minted() {
    let d = deployment();
    let accounts = asset_accounts(13, 2, 3, 4);
    let plan = programmable_asset::process_create_and_mint_pnft(&d, &accounts, &[]).unwrap();
    assert_eq!(plan.len(), 2);
    assert_eq!(
        plan[1],
        Step {
            call: Call::MintAsset {
                amount: 1,
                token: 9,
                token_owner: 8,
                metadata: 0,
                master_edition: 1,
                token_record: 10,
                mint: 2,
                authority: 3,
                payer: 4,
                system_program: 5,
                sysvar_instructions: 6,
                token_program: 7,
                associated_token_program: 11,
                metadata_program: 12,
            },
            signer: authority_signer(),
        }
    );
    match plan[0].call {
        Call::CreateAsset { content, metadata_program, print_supply, .. } => {
            assert_eq!(content, programmable());
            assert_eq!(metadata_program, None);
            assert_eq!(print_supply, PrintSupply::Zero);
        }
        _ => panic!("the asset is created first"),
    }
    assert!(ledger_positions(&plan).is_empty());
    let mut a = accounts.clone();
    a[4].is_signer = false;
    assert_eq!(
        programmable_asset::process_create_and_mint_pnft(&d, &a, &[]),
        Err(IssuanceError::AuthorizationMissing)
    );
}

#[test]
fn the_plain_mint_checks_the_three_programs() {
    let d = deployment();
    let p = programs();
    let mut accounts = filler(7);
    accounts[0].is_signer = true;
    accounts[1].is_signer = true;
    accounts[2].key = p.system;
    accounts[3].key = p.token;
    accounts[6].key = p.associated_token;
    let plan = plain_mint::process_instruction(&d, &accounts, &[]).unwrap();
    assert_eq!(plan.len(), 4);
    assert_eq!(
        plan[1],
        Step {
            call: Call::InitializeMint {
                decimals: 0,
                flavor: TokenFlavor::Classic,
                mint: 0,
                authority: 1,
                rent: 4,
                token_program: Some(3),
            },
            signer: Signer::Nobody,
        }
    );
    assert_eq!(
        plan[3],
        Step {
            call: Call::MintUnit {
                amount: 1,
                mint: 0,
                destination: 5,
                authority: 1,
                token_program: Some(3),
                countersigned: true,
            },
            signer: Signer::Nobody,
        }
    );
    for wrong in [2usize, 3, 6] {
        let mut a = accounts.clone();
        a[wrong].key = X;
        assert_eq!(plain_mint::process_instruction(&d, &a, &[]), Err(IssuanceError::IncorrectProgram));
    }
    let mut a = accounts.clone();
    a[0].is_signer = false;
    a[3].key = X;
    assert_eq!(plain_mint::process_instruction(&d, &a, &[]), Err(IssuanceError::AuthorizationMissing));
}

#[test]
fn a_print_reads_the_number_of_the_edition() {
    let d = deployment();
    let accounts = filler(16);
    assert_eq!(
        print_edition::process_instruction(&d, &accounts, &[7, 1, 0, 0, 0, 0, 0, 0, 99]),
        Ok(vec![Step {
            call: Call::PrintEdition {
                edition_metadata: 0,
                edition: 1,
                master_edition: 2,
                edition_mint: 3,
                edition_marker: 4,
                edition_mint_authority: 5,
                payer: 6,
                master_token_account_owner: 7,
                master_token_account: 8,
                update_authority: 9,
                master_metadata: 10,
                token_program: 11,
                system_program: 12,
                sysvar_instructions: 13,
                spl_token_program: 14,
                associated_token_program: 15,
                edition_number: 263,
            },
            signer: Signer::Nobody,
        }])
    );
    assert_eq!(
        print_edition::process_instruction(&d, &accounts, &[7, 1, 0, 0, 0, 0, 0]),
        Err(IssuanceError::ParseError)
    );
    assert_eq!(
        print_edition::process_instruction(&d, &accounts[..15], &[7, 1, 0, 0, 0, 0, 0, 0]),
        Err(IssuanceError::NotEnoughAccounts)
    );
}

// ---- updates and the withdrawal -------------------------------------------------

#[test]
fn the_fixed_update_is_held_to_its_mint() {
    let d = deployment();
    let mut accounts = filler(7);
    accounts[fixed_update::AUTHORITY].key = authority();
    accounts[fixed_update::PAYER].is_signer = true;
    accounts[fixed_update::MINT].key = parse_address(fixed_update::TARGET_MINT).unwrap();
    assert_eq!(
        fixed_update::process_instruction(&d, &accounts, &[]),
        Ok(vec![Step {
            call: Call::UpdateAsset {
                authority: 2,
                mint: 1,
                metadata: 0,
                payer: 3,
                system_program: 4,
                sysvar_instructions: 5,
                content: NewContent::Fixed(infinity()),
            },
            signer: authority_signer(),
        }])
    );
    accounts[1].key = X;
    assert_eq!(fixed_update::process_instruction(&d, &accounts, &[]), Err(IssuanceError::DerivationMismatch));
}

#[test]
fn the_universal_update_is_held_to_the_mint_it_names() {
    let d = deployment();
    let mut accounts = filler(7);
    accounts[universal_update::AUTHORITY].key = authority();
    accounts[universal_update::PAYER].is_signer = true;
    accounts[universal_update::MINT].key = [0xaa; 32];
    let mut data = vec![0xaa; 32];
    data.push(1);
    data.extend_from_slice(&[5u8; 32]);
    data.push(1);
    data.push(2);
    data.extend_from_slice("ab".as_bytes());
    assert_eq!(
        universal_update::process_instruction(&d, &accounts, &data),
        Ok(vec![Step {
            call: Call::UpdateAsset {
                authority: 2,
                mint: 1,
                metadata: 0,
                payer: 3,
                system_program: 4,
                sysvar_instructions: 5,
                content: NewContent::Parsed(ParsedContent {
                    creator: Some(Creator {
                        source: ReferenceSource::Payload(33),
                        verified: false,
                        share: 100,
                    }),
                    name: Some(TextRange { start: 67, len: 2 }),
                    symbol: None,
                    uri: None,
                    seller_fee_basis_points: None,
                }),
            },
            signer: authority_signer(),
        }])
    );
    assert_eq!(
        universal_update::process_instruction(&d, &accounts, &data[..31]),
        Err(IssuanceError::ParseError)
    );
    data[0] = 0;
    assert_eq!(
        universal_update::process_instruction(&d, &accounts, &data),
        Err(IssuanceError::DerivationMismatch)
    );
}

#[test]
fn the_withdrawal_needs_the_recipient_the_authority_and_the_funds() {
    let d = deployment();
    let mut accounts = filler(3);
    accounts[withdraw::AUTHORITY].key = authority();
    accounts[withdraw::AUTHORITY].lamports = 1000;
    accounts[withdraw::RECIPIENT].key = parse_address(withdraw::RECIPIENT_ADDRESS).unwrap();
    let amount = |n: u64| n.to_le_bytes().to_vec();
    assert_eq!(
        withdraw::process_instruction(&d, &accounts, &amount(1000)),
        Ok(vec![Step {
            call: Call::Transfer { from: 0, to: 1, system_program: 2, lamports: 1000 },
            signer: authority_signer(),
        }])
    );
    assert_eq!(withdraw::process_instruction(&d, &accounts, &amount(1001)), Err(IssuanceError::InsufficientFunds));
    assert_eq!(withdraw::process_instruction(&d, &accounts, &[1, 2, 3]), Err(IssuanceError::ParseError));
    let mut a = accounts.clone();
    a[1].key = X;
    assert_eq!(withdraw::process_instruction(&d, &a, &amount(1)), Err(IssuanceError::DerivationMismatch));
    let mut a = accounts.clone();
    a[0].key = X;
    assert_eq!(withdraw::process_instruction(&d, &a, &amount(1)), Err(IssuanceError::DerivationMismatch));
    assert_eq!(withdraw::process_instruction(&d, &accounts[..2], &amount(1)), Err(IssuanceError::NotEnoughAccounts));
}

// ---- issuances behind a proof ----------------------------------------------------

fn tracked_accounts(n: usize, round: u8) -> Vec<AccountView> {
    // The layout of the tracked issuance, with what follows it filled in.
    let mut accounts = filler(n);
    accounts[0].is_signer = true;
    accounts[2] = blank(X, true);
    accounts[7].key = authority();
    accounts[8].key = record_address(&PROGRAM, &EXTENDED_RECORD_TAG, &[round], &X).unwrap().address;
    accounts
}

fn with_sibling(round: u8) -> Vec<u8> {
    let mut data = vec![round];
    data.extend_from_slice(&leaf(&Y));
    data
}

#[test]
fn tracked_issuances_write_the_ledger_once_after_the_resource() {
    let d = deployment();
    let data = with_sibling(1);
    let a = tracked_mint_metadata::create_mint_token_with_merkle_proof_tracked_extended_and_metadata(
        &d,
        &tracked_accounts(11, 1),
        &data,
    )
    .unwrap();
    assert_eq!(a.len(), 7);
    assert_eq!(ledger_positions(&a), vec![4, 5]);
    assert_eq!(
        a[6],
        Step {
            call: Call::CreateMetadata {
                metadata: 9,
                mint: 0,
                authority: 7,
                payer: 2,
                metadata_program: 10,
                system_program: 3,
                rent: 6,
                token_program: 5,
                content: plain(600),
            },
            signer: authority_signer(),
        }
    );
    let b = tracked_edition::create_mint_metadata_and_master_edition(&d, &tracked_accounts(13, 1), &data).unwrap();
    assert_eq!(b.len(), 8);
    assert_eq!(ledger_positions(&b), vec![4, 5]);
    assert_eq!(
        b[7],
        Step {
            call: Call::CreateMasterEdition {
                max_supply: Some(0),
                edition: 11,
                metadata: 9,
                mint: 0,
                authority: 7,
                payer: 2,
                metadata_program: 10,
                token_program: 4,
                system_program: 3,
                rent: 6,
                spl_token_program: 12,
            },
            signer: authority_signer(),
        }
    );
    let c = tracked_asset::process_instruction(&d, &tracked_accounts(13, 1), &data).unwrap();
    assert_eq!(c.len(), 7);
    assert_eq!(ledger_positions(&c), vec![4, 5]);
    assert_eq!(a[..6], c[..6]);
    assert_eq!(
        tracked_edition::create_mint_metadata_and_master_edition(&d, &tracked_accounts(12, 1), &data),
        Err(IssuanceError::NotEnoughAccounts)
    );
    assert_eq!(
        tracked_asset::process_instruction(&d, &tracked_accounts(13, 0), &with_sibling(0)),
        Err(IssuanceError::ProofInvalid)
    );
    assert_eq!(
        tracked_asset::process_instruction(&d, &tracked_accounts(13, 0), &data),
        Err(IssuanceError::DerivationMismatch)
    );
}

#[test]
fn the_asset_with_a_record_writes_the_ledger_last() {
    let d = deployment();
    let mut accounts = filler(11);
    accounts[tracked_asset_record::MINT].is_signer = true;
    accounts[tracked_asset_record::PAYER] = blank(X, true);
    accounts[tracked_asset_record::AUTHORITY].key = authority();
    accounts[tracked_asset_record::RECORD].key =
        record_address(&PROGRAM, &EXTENDED_RECORD_TAG, &[0u8], &X).unwrap().address;
    let plan = tracked_asset_record::process_instruction(&d, &accounts, &[0]).unwrap();
    assert_eq!(plan.len(), 5);
    assert_eq!(ledger_positions(&plan), vec![3, 4]);
    assert_eq!(plan[1].signer, authority_signer());
    accounts[tracked_asset_record::RECORD].owner = PROGRAM;
    accounts[tracked_asset_record::RECORD].data = vec![0u8; 32];
    assert_eq!(
        tracked_asset_record::process_instruction(&d, &accounts, &[0]),
        Err(IssuanceError::AlreadyIssued)
    );
}

#[test]
fn the_clean_tracked_asset_is_made_of_the_shared_steps() {
    let d = deployment();
    let mut accounts = filler(14);
    accounts[tracked_clean_asset::MINT].is_signer = true;
    accounts[tracked_clean_asset::PAYER] = blank(X, true);
    accounts[tracked_clean_asset::AUTHORITY].key = authority();
    accounts[tracked_clean_asset::RECORD].key =
        record_address(&PROGRAM, &EXTENDED_RECORD_TAG, &[1u8], &X).unwrap().address;
    let plan = tracked_clean_asset::create_nft_with_merkle_proof_and_clean_metadata(
        &d,
        &accounts,
        &with_sibling(1),
    )
    .unwrap();
    let bump = authority_address(&PROGRAM).unwrap().bump;
    let (allocate, initialize) = create_and_init_mint_account(4, 2, 3, 6, 12);
    assert_eq!(plan.len(), 7);
    assert_eq!(plan[0], allocate);
    assert_eq!(plan[1], initialize);
    assert_eq!(plan[2], create_associated_token_account(4, 10, 2, 6, 8, 11, 12));
    assert_eq!(plan[3], mint_token(2, 10, 3, bump));
    assert_eq!(ledger_positions(&plan), vec![4, 5]);
    match plan[6].call {
        Call::CreateAsset { update_authority, metadata_program, .. } => {
            assert_eq!(update_authority, 5);
            assert_eq!(metadata_program, Some(9));
        }
        _ => panic!("the asset comes last"),
    }
    let mut long = with_sibling(1);
    long.push(0);
    assert_eq!(
        tracked_clean_asset::create_nft_with_merkle_proof_and_clean_metadata(&d, &accounts, &long),
        Err(IssuanceError::ParseError)
    );
}

#[test]
fn the_shared_steps_say_what_they_create() {
    let (allocate, initialize) = create_and_init_mint_account(1, 2, 3, 4, 5);
    assert_eq!(
        allocate,
        Step {
            call: Call::Allocate {
                payer: 1,
                account: 2,
                system_program: 4,
                space: 82,
                owner: Owner::Token(TokenFlavor::Classic),
            },
            signer: Signer::Nobody,
        }
    );
    assert_eq!(
        initialize,
        Step {
            call: Call::InitializeMint {
                decimals: 0,
                flavor: TokenFlavor::Classic,
                mint: 2,
                authority: 3,
                rent: 5,
                token_program: None,
            },
            signer: Signer::Nobody,
        }
    );
    assert_eq!(
        create_associated_token_account(1, 2, 3, 4, 5, 6, 7),
        Step {
            call: Call::CreateHoldingAccount {
                flavor: TokenFlavor::Classic,
                idempotent: false,
                payer: 1,
                holding: 2,
                holder: 1,
                mint: 3,
                system_program: 4,
                token_program: 5,
                associated_token_program: 6,
                rent: 7,
            },
            signer: Signer::Nobody,
        }
    );
    assert_eq!(
        mint_token(1, 2, 3, 250),
        Step {
            call: Call::MintUnit {
                amount: 1,
                mint: 1,
                destination: 2,
                authority: 3,
                token_program: None,
                countersigned: false,
            },
            signer: Signer::Authority { bump: 250 },
        }
    );
}

#[test]
fn contents_are_what_they_are() {
    assert_eq!(
        plain(600),
        Content { name: "NFT", symbol: "NFT", uri: "", seller_fee_basis_points: 600, number: None }
    );
    assert_eq!(plain(700).seller_fee_basis_points, 700);
    assert_eq!(
        programmable(),
        Content {
            name: "pNFT",
            symbol: "PNFT",
            uri: "https://example.com/metadata.json",
            seller_fee_basis_points: 500,
            number: None,
        }
    );
    assert_eq!(
        collected(),
        Content {
            name: "YAPSTER pNFT 36",
            symbol: "YAPPNFT36",
            uri: "https://a.b/c.json",
            seller_fee_basis_points: 500,
            number: None,
        }
    );
    assert_eq!(
        infinity(),
        Content {
            name: "Yapster Infinity 39",
            symbol: "YAPI39",
            uri: "https://a.b/c.json",
            seller_fee_basis_points: 1000,
            number: None,
        }
    );
    assert_eq!(
        dimensions(Some(12)),
        Content {
            name: "Yapster Dimensions #",
            symbol: "YAPI",
            uri: "https://a.b/c.json",
            seller_fee_basis_points: 1000,
            number: Some(12),
        }
    );
    assert_eq!(dimensions(None).number, None);
}

#[test]
fn the_tracked_programmable_asset_reads_the_round_first() {
    let d = deployment();
    let mut accounts = filler(15);
    accounts[tracked_programmable::MINT].is_signer = true;
    accounts[tracked_programmable::PAYER] = blank(X, true);
    accounts[tracked_programmable::AUTHORITY].key = authority();
    accounts[tracked_programmable::RECORD].key =
        record_address(&PROGRAM, &EXTENDED_RECORD_TAG, &[1u8], &X).unwrap().address;
    let plan = tracked_programmable::process_instruction(&d, &accounts, &with_sibling(1)).unwrap();
    assert_eq!(plan.len(), 7);
    assert_eq!(ledger_positions(&plan), vec![5, 6]);
    assert!(matches!(plan[4].call, Call::MintAsset { amount: 1, .. }));
    // With no account at all, the round is still what is found first.
    assert_eq!(tracked_programmable::process_instruction(&d, &[], &[3]), Err(IssuanceError::InvalidRound));
    assert_eq!(tracked_programmable::process_instruction(&d, &[], &[]), Err(IssuanceError::ParseError));
    assert_eq!(tracked_programmable::process_instruction(&d, &[], &[1]), Err(IssuanceError::NotEnoughAccounts));
}

fn collection_accounts(text: &str, flavor_id: [u8; 32], record: [u8; 32]) -> Vec<AccountView> {
    let mut accounts = filler(19);
    let metadata_program = [77u8; 32];
    let mint = parse_address(text).unwrap();
    accounts[collection_extended::MINT].is_signer = true;
    accounts[collection_extended::PAYER] = blank(X, true);
    accounts[collection_extended::AUTHORITY].key = authority();
    accounts[collection_extended::TOKEN_PROGRAM].key = flavor_id;
    accounts[collection_extended::TOKEN_METADATA_PROGRAM].key = metadata_program;
    accounts[collection_extended::RECORD].key = record;
    accounts[collection_extended::COLLECTION_MINT].key = mint;
    accounts[collection_extended::COLLECTION_METADATA].key = derive_address(
        &vec!["metadata".as_bytes().to_vec(), metadata_program.to_vec(), mint.to_vec()],
        &metadata_program,
    )
    .unwrap()
    .address;
    accounts[collection_extended::COLLECTION_MASTER_EDITION].key = derive_address(
        &vec![
            "metadata".as_bytes().to_vec(),
            metadata_program.to_vec(),
            mint.to_vec(),
            "edition".as_bytes().to_vec(),
        ],
        &metadata_program,
    )
    .unwrap()
    .address;
    accounts
}

#[test]
fn the_extended_collection_asset_is_held_to_its_fixed_accounts() {
    let d = deployment();
    let record = record_address(&PROGRAM, &EXTENDED_RECORD_TAG, &[1u8], &X).unwrap().address;
    let accounts = collection_accounts(collection_extended::COLLECTION_ADDRESS, programs().token_2022, record);
    let data = with_sibling(1);
    let plan = collection_extended::process_instruction(&d, &accounts, &data).unwrap();
    assert_eq!(plan.len(), 8);
    assert_eq!(ledger_positions(&plan), vec![5, 6]);
    assert!(matches!(plan[4].call, Call::MintAsset { amount: 1, .. }));
    assert_eq!(
        plan[0].call,
        Call::Allocate {
            payer: 4,
            account: 2,
            system_program: 5,
            space: 82,
            owner: Owner::Token(TokenFlavor::Extended),
        }
    );
    match plan[2].call {
        Call::CreateAsset { content, collection, creator, .. } => {
            assert_eq!(content, collected());
            assert_eq!(collection, Some(15));
            assert_eq!(creator, None);
        }
        _ => panic!("the asset is the third step"),
    }
    assert_eq!(
        plan[7],
        Step {
            call: Call::VerifyCollection {
                metadata: 0,
                authority: 3,
                collection_mint: 15,
                collection_metadata: 16,
                collection_master_edition: 17,
                system_program: 5,
                sysvar_instructions: 6,
            },
            signer: authority_signer(),
        }
    );
    for wrong in [
        collection_extended::TOKEN_PROGRAM,
        collection_extended::COLLECTION_MINT,
        collection_extended::COLLECTION_METADATA,
        collection_extended::COLLECTION_MASTER_EDITION,
        collection_extended::RECORD,
        collection_extended::AUTHORITY,
    ] {
        let mut a = accounts.clone();
        a[wrong].key = [1u8; 32];
        assert_eq!(
            collection_extended::process_instruction(&d, &a, &data),
            Err(IssuanceError::DerivationMismatch)
        );
    }
    // The classic token program is not the extended one.
    let mut a = accounts.clone();
    a[collection_extended::TOKEN_PROGRAM].key = programs().token;
    assert_eq!(collection_extended::process_instruction(&d, &a, &data), Err(IssuanceError::DerivationMismatch));
}

#[test]
fn the_positioned_collection_asset_folds_the_position_into_the_leaf() {
    let d = deployment();
    let record = record_address(&PROGRAM, &RECORD_TAG, &round_wide_seed(2), &X).unwrap().address;
    let accounts = collection_accounts(collection_positioned::COLLECTION_ADDRESS, programs().token, record);
    let mut data = vec![2u8, 1, 2];
    data.extend_from_slice(&leaf(&Y));
    let plan = collection_positioned::process_instruction(&d, &accounts, &data).unwrap();
    assert_eq!(plan.len(), 8);
    assert_eq!(ledger_positions(&plan), vec![5, 6]);
    assert!(matches!(plan[4].call, Call::MintAsset { amount: 1, .. }));
    match plan[2].call {
        Call::CreateAsset { content, collection, creator, .. } => {
            assert_eq!(content, dimensions(Some(513)));
            assert_eq!(collection, Some(15));
            assert_eq!(
                creator,
                Some(Creator { source: ReferenceSource::Account(3), verified: true, share: 100 })
            );
        }
        _ => panic!("the asset is the third step"),
    }
    match plan[5].signer {
        Signer::Record { schema, round, claimant, .. } => {
            assert_eq!(schema, RecordSchema::Wide);
            assert_eq!(round, 2);
            assert_eq!(claimant, 4);
        }
        _ => panic!("the record signs its own allocation"),
    }
    // Another position is another leaf.
    let mut other = data.clone();
    other[1] = 2;
    assert_eq!(collection_positioned::process_instruction(&d, &accounts, &other), Err(IssuanceError::ProofInvalid));
    // The position does not enter the plain round.
    let mut plain_round = vec![1u8, 1, 2];
    plain_round.extend_from_slice(&leaf(&Y));
    let mut a = accounts.clone();
    a[collection_positioned::RECORD].key =
        record_address(&PROGRAM, &RECORD_TAG, &round_wide_seed(1), &X).unwrap().address;
    assert_eq!(collection_positioned::process_instruction(&d, &a, &plain_round), Err(IssuanceError::ProofInvalid));
    assert_eq!(collection_positioned::process_instruction(&d, &accounts, &[2, 1]), Err(IssuanceError::ParseError));
    assert_eq!(collection_positioned::process_instruction(&d, &accounts, &data[..34]), Err(IssuanceError::ParseError));
    // The record of the one-byte address space is not the record of this one.
    let mut a = accounts.clone();
    a[collection_positioned::RECORD].key =
        record_address(&PROGRAM, &RECORD_TAG, &[2u8], &X).unwrap().address;
    assert_eq!(collection_positioned::process_instruction(&d, &a, &data), Err(IssuanceError::DerivationMismatch));
}

// ---- what is created can be torn down, and nothing is recorded too early ----------

fn made(mut record: AccountView, schema_tag: &[u8], round_seed: &[u8], mint: [u8; 32]) -> AccountView {
    let d = record_address(&PROGRAM, schema_tag, round_seed, &X).unwrap();
    assert_eq!(allowlist_mint::ledger::create(
        &mut record,
        allowlist_mint::ledger::RecordKind::Reference,
        &d,
        &PROGRAM,
        900,
    ), Ok(()));
    assert_eq!(allowlist_mint::ledger::write_reference(&mut record, &mint), Ok(()));
    record
}

#[test]
fn a_record_of_the_positioned_collection_is_reclaimed_with_its_round() {
    let d = deployment();
    let record = record_address(&PROGRAM, &RECORD_TAG, &round_wide_seed(2), &X).unwrap().address;
    let accounts = collection_accounts(collection_positioned::COLLECTION_ADDRESS, programs().token, record);
    let mut data = vec![2u8, 1, 2];
    data.extend_from_slice(&leaf(&Y));
    let plan = collection_positioned::process_instruction(&d, &accounts, &data).unwrap();
    assert!(matches!(
        plan[5].signer,
        Signer::Record { schema: RecordSchema::Wide, round: 2, claimant: 4, .. }
    ));
    let written = made(
        accounts[collection_positioned::RECORD].clone(),
        &RECORD_TAG,
        &round_wide_seed(2),
        accounts[collection_positioned::MINT].key,
    );
    let mut payer = blank(X, true);
    payer.lamports = 100;
    assert_eq!(
        reclaim_wide::process_instruction(&d, &vec![payer.clone(), written.clone()], &[2]),
        Ok(vec![Step {
            call: Call::Release {
                record: 1,
                beneficiary: 0,
                schema: RecordSchema::Wide,
                round: 2,
            },
            signer: Signer::Nobody,
        }])
    );
    // Another round names another record.
    assert_eq!(
        reclaim_wide::process_instruction(&d, &vec![payer, written], &[3]),
        Err(IssuanceError::DerivationMismatch)
    );
}

#[test]
fn a_record_made_by_hand_is_reclaimed_with_its_round() {
    let d = deployment();
    let round: u64 = 7;
    let found = record_address(&PROGRAM, &RECORD_TAG, &round_wide_seed(round), &X).unwrap();
    let accounts = vec![blank(found.address, false), blank(X, true), blank([0u8; 32], false)];
    let mut data = round.to_le_bytes().to_vec();
    data.extend_from_slice(&[3u8; 32]);
    assert!(manual_record::process_instruction(&d, &accounts, &data).is_ok());
    let written = made(accounts[0].clone(), &RECORD_TAG, &round_wide_seed(round), [3u8; 32]);
    let mut payer = blank(X, true);
    payer.lamports = 100;
    let plan = reclaim_wide::process_instruction(&d, &vec![payer.clone(), written.clone()], &[7]).unwrap();
    assert_eq!(plan.len(), 1);
    let (mut torn, mut paid) = (written.clone(), payer.clone());
    assert_eq!(allowlist_mint::ledger::reclaim(&mut torn, &mut paid, &found), Ok(()));
    assert_eq!(paid.lamports, 1000);
    assert_eq!(torn.lamports, 0);
    assert_eq!(torn.data, vec![0u8; 32]);
}

#[test]
fn a_record_of_the_tracked_issuance_is_reclaimed_with_its_round() {
    let d = deployment();
    let accounts = tracked_accounts(9, 1);
    let issued = allowlist_mint::tracked_mint::create_mint_and_token_with_round_merkle_proof_tracked_extended(
        &d,
        &accounts,
        &with_sibling(1),
    );
    assert!(issued.is_ok());
    let written = made(accounts[8].clone(), &EXTENDED_RECORD_TAG, &[1u8], accounts[0].key);
    let payer = blank(X, true);
    assert_eq!(
        reclaim::delete_mint_record_for_round(&d, &vec![payer, written, blank([0u8; 32], false)], &[1]),
        Ok(vec![Step {
            call: Call::Release {
                record: 1,
                beneficiary: 0,
                schema: RecordSchema::Extended,
                round: 1,
            },
            signer: Signer::Nobody,
        }])
    );
}

#[test]
fn a_minting_that_fails_leaves_no_record() {
    let d = deployment();
    let mut accounts = filler(15);
    accounts[tracked_programmable::MINT].is_signer = true;
    accounts[tracked_programmable::PAYER] = blank(X, true);
    accounts[tracked_programmable::AUTHORITY].key = authority();
    accounts[tracked_programmable::RECORD].key =
        record_address(&PROGRAM, &EXTENDED_RECORD_TAG, &[1u8], &X).unwrap().address;
    let extended = collection_accounts(
        collection_extended::COLLECTION_ADDRESS,
        programs().token_2022,
        record_address(&PROGRAM, &EXTENDED_RECORD_TAG, &[1u8], &X).unwrap().address,
    );
    let positioned = collection_accounts(
        collection_positioned::COLLECTION_ADDRESS,
        programs().token,
        record_address(&PROGRAM, &RECORD_TAG, &round_wide_seed(2), &X).unwrap().address,
    );
    let mut positioned_data = vec![2u8, 1, 2];
    positioned_data.extend_from_slice(&leaf(&Y));
    let plans = vec![
        tracked_programmable::process_instruction(&d, &accounts, &with_sibling(1)),
        collection_extended::process_instruction(&d, &extended, &with_sibling(1)),
        collection_positioned::process_instruction(&d, &positioned, &positioned_data),
    ];
    for checked in plans {
        let mut attempt = allowlist_mint::pipeline::Attempt::begin(checked);
        let mut done: Vec<Step> = vec![];
        loop {
            let step = attempt.pending().unwrap();
            if matches!(step.call, Call::MintAsset { .. }) {
                attempt.report(Err(77));
                break;
            }
            done.push(step);
            attempt.report(Ok(()));
        }
        assert_eq!(attempt.outcome(), Some(Err(IssuanceError::CollaboratorFailure(77))));
        assert_eq!(attempt.pending(), None);
        assert_eq!(done.len(), 4);
        assert!(done.iter().all(|s| !ledger_step(s)));
    }
}
