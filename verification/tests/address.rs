use allowlist_mint::address::{
    authority_address, authority_signature, bytes_of, derive_address, parse_address, record_address, round_byte_seed,
    round_wide_seed, sign, AUTHORITY_TAG, EDITION_TAG, EXTENDED_RECORD_TAG, METADATA_TAG,
    RECORD_TAG,
};
use solana_program::pubkey::Pubkey;

const PROGRAM: [u8; 32] = [42u8; 32];
const X: [u8; 32] = [7u8; 32];
const Y: [u8; 32] = [9u8; 32];

#[test]
fn tags_spell_their_texts() {
    assert_eq!(&AUTHORITY_TAG[..], "mint_authority".as_bytes());
    assert_eq!(&EXTENDED_RECORD_TAG[..], "is_minted_ext".as_bytes());
    assert_eq!(&RECORD_TAG[..], "minted".as_bytes());
    assert_eq!(&METADATA_TAG[..], "metadata".as_bytes());
    assert_eq!(&EDITION_TAG[..], "edition".as_bytes());
}

#[test]
fn authority_is_the_host_derivation_of_its_tag() {
    let program = Pubkey::new_from_array(PROGRAM);
    let (address, bump) = Pubkey::find_program_address(&["mint_authority".as_bytes()], &program);
    let found = authority_address(&PROGRAM).unwrap();
    assert_eq!(found.address, address.to_bytes());
    assert_eq!(found.bump, bump);
    assert_ne!(found.address, PROGRAM);
}

#[test]
fn record_address_is_the_host_derivation_of_tag_round_and_claimant() {
    let program = Pubkey::new_from_array(PROGRAM);
    let (address, bump) = Pubkey::find_program_address(
        &["is_minted_ext".as_bytes(), &[3u8], &X],
        &program,
    );
    let found = record_address(&PROGRAM, &EXTENDED_RECORD_TAG, &[3u8], &X).unwrap();
    assert_eq!(found.address, address.to_bytes());
    assert_eq!(found.bump, bump);
    let (wide, wide_bump) = Pubkey::find_program_address(
        &["minted".as_bytes(), &3u64.to_le_bytes(), &X],
        &program,
    );
    let found = record_address(&PROGRAM, &RECORD_TAG, &round_wide_seed(3), &X).unwrap();
    assert_eq!(found.address, wide.to_bytes());
    assert_eq!(found.bump, wide_bump);
}

#[test]
fn record_address_is_the_same_on_every_call() {
    let once = record_address(&PROGRAM, &EXTENDED_RECORD_TAG, &[3u8], &X);
    let again = record_address(&PROGRAM, &EXTENDED_RECORD_TAG, &[3u8], &X);
    assert!(once.is_some());
    assert_eq!(once, again);
}

#[test]
fn record_addresses_differ_by_round_claimant_and_tag() {
    let base = record_address(&PROGRAM, &EXTENDED_RECORD_TAG, &[3u8], &X).unwrap().address;
    let other_round = record_address(&PROGRAM, &EXTENDED_RECORD_TAG, &[4u8], &X).unwrap().address;
    let other_claimant = record_address(&PROGRAM, &EXTENDED_RECORD_TAG, &[3u8], &Y).unwrap().address;
    let other_tag = record_address(&PROGRAM, &RECORD_TAG, &[3u8], &X).unwrap().address;
    let wide = record_address(&PROGRAM, &RECORD_TAG, &round_wide_seed(3), &X).unwrap().address;
    let all = [base, other_round, other_claimant, other_tag, wide];
    for i in 0..all.len() {
        for j in 0..all.len() {
            if i != j {
                assert_ne!(all[i], all[j]);
            }
        }
    }
}

#[test]
fn a_seed_that_is_too_long_derives_nothing() {
    assert_eq!(record_address(&PROGRAM, &[1u8; 33], &[3u8], &X), None);
    assert_eq!(derive_address(&vec![vec![0u8; 33]], &PROGRAM), None);
}

#[test]
fn derive_address_matches_the_host() {
    let program = Pubkey::new_from_array(PROGRAM);
    let seeds = vec![vec![1u8, 2, 3], vec![], X.to_vec()];
    let (address, bump) = Pubkey::find_program_address(&[&[1u8, 2, 3], &[], &X], &program);
    let found = derive_address(&seeds, &PROGRAM).unwrap();
    assert_eq!(found.address, address.to_bytes());
    assert_eq!(found.bump, bump);
}

#[test]
fn signature_seeds_end_with_the_bump() {
    let seeds = sign(vec![AUTHORITY_TAG.to_vec()], 254);
    assert_eq!(seeds, vec![AUTHORITY_TAG.to_vec(), vec![254u8]]);
    let found = authority_address(&PROGRAM).unwrap();
    let seeds = sign(vec![AUTHORITY_TAG.to_vec()], found.bump);
    let parts: Vec<&[u8]> = seeds.iter().map(|s| s.as_slice()).collect();
    let made = Pubkey::create_program_address(&parts, &Pubkey::new_from_array(PROGRAM)).unwrap();
    assert_eq!(made.to_bytes(), found.address);
}

#[test]
fn round_seeds() {
    assert_eq!(round_byte_seed(3), vec![3u8]);
    assert_eq!(round_byte_seed(255), vec![255u8]);
    assert_eq!(round_wide_seed(3), vec![3u8, 0, 0, 0, 0, 0, 0, 0]);
    assert_eq!(round_wide_seed(0x0102_0304_0506_0708), vec![8u8, 7, 6, 5, 4, 3, 2, 1]);
    assert_eq!(round_wide_seed(u64::MAX), vec![255u8; 8]);
    assert_eq!(round_wide_seed(0), vec![0u8; 8]);
}

#[test]
fn bytes_of_copies() {
    assert_eq!(bytes_of(&[1u8, 2, 3]), vec![1u8, 2, 3]);
    assert_eq!(bytes_of(&[]), Vec::<u8>::new());
}

#[test]
fn parse_address_reads_base58() {
    assert_eq!(parse_address("11111111111111111111111111111111"), Some([0u8; 32]));
    assert_eq!(
        parse_address("TokenkegQfeZyiNwAJbNbGKPFXCWuBvf9Ss623VQ5DA"),
        Some(spl_token::id().to_bytes())
    );
    let text = Pubkey::new_from_array(X).to_string();
    assert_eq!(parse_address(&text), Some(X));
    assert_eq!(parse_address(""), None);
    assert_eq!(parse_address("not base 58 !"), None);
    assert_eq!(parse_address("1111"), None);
}

#[test]
fn the_authority_signs_with_its_tag_and_bump() {
    let found = authority_address(&PROGRAM).unwrap();
    assert_eq!(
        authority_signature(&PROGRAM),
        Some(vec!["mint_authority".as_bytes().to_vec(), vec![found.bump]])
    );
    assert_eq!(authority_signature(&PROGRAM), authority_signature(&PROGRAM));
    assert_ne!(authority_signature(&PROGRAM), authority_signature(&X));
}
