use allowlist_mint::error::IssuanceError;
use allowlist_mint::payload::{
    address_at, le_u64, parse_proof_payload, parse_update, position_of, proof_of, ProofPayload,
};
use allowlist_mint::plan::{Creator, ParsedContent, ReferenceSource, TextRange};

fn payload(header: &[u8], siblings: usize, extra: usize) -> Vec<u8> {
    let mut data = header.to_vec();
    for i in 0..siblings {
        data.extend_from_slice(&[(i + 1) as u8; 32]);
    }
    data.extend(std::iter::repeat(0xee).take(extra));
    data
}

#[test]
fn an_empty_payload_is_a_parse_error() {
    assert_eq!(proof_of(&[], false), Err(IssuanceError::ParseError));
    assert_eq!(parse_proof_payload(&[], false), Err(IssuanceError::ParseError));
    assert_eq!(parse_proof_payload(&[], true), Err(IssuanceError::ParseError));
}

#[test]
fn a_round_alone_carries_an_empty_proof() {
    assert_eq!(
        parse_proof_payload(&[5], false),
        Ok(ProofPayload { round_id: 5, position: None, proof: vec![] })
    );
}

#[test]
fn siblings_are_read_in_their_order() {
    let data = payload(&[5], 3, 0);
    assert_eq!(data.len(), 97);
    assert_eq!(
        parse_proof_payload(&data, false),
        Ok(ProofPayload {
            round_id: 5,
            position: None,
            proof: vec![[1u8; 32], [2u8; 32], [3u8; 32]],
        })
    );
    assert_eq!(proof_of(&data, false), Ok(vec![[1u8; 32], [2u8; 32], [3u8; 32]]));
}

#[test]
fn a_length_that_is_no_whole_number_of_siblings_is_a_parse_error() {
    for extra in [1usize, 2, 31] {
        assert_eq!(parse_proof_payload(&payload(&[5], 0, extra), false), Err(IssuanceError::ParseError));
        assert_eq!(parse_proof_payload(&payload(&[5], 2, extra), false), Err(IssuanceError::ParseError));
        assert_eq!(proof_of(&payload(&[5], 2, extra), false), Err(IssuanceError::ParseError));
    }
    assert!(parse_proof_payload(&payload(&[5], 0, 32), false).is_ok());
}

#[test]
fn a_positioned_payload_carries_the_position_low_byte_first() {
    let data = payload(&[5, 0x02, 0x01], 1, 0);
    assert_eq!(data.len(), 35);
    assert_eq!(position_of(&data), 0x0102);
    assert_eq!(
        parse_proof_payload(&data, true),
        Ok(ProofPayload { round_id: 5, position: Some(0x0102), proof: vec![[1u8; 32]] })
    );
    assert_eq!(
        parse_proof_payload(&[5, 0xff, 0xff], true),
        Ok(ProofPayload { round_id: 5, position: Some(0xffff), proof: vec![] })
    );
    assert_eq!(parse_proof_payload(&[5, 1], true), Err(IssuanceError::ParseError));
    assert_eq!(parse_proof_payload(&[5], true), Err(IssuanceError::ParseError));
    assert_eq!(parse_proof_payload(&payload(&[5, 1, 0], 1, 1), true), Err(IssuanceError::ParseError));
}

#[test]
fn le_u64_reads_the_low_byte_first() {
    assert_eq!(le_u64(&[8, 7, 6, 5, 4, 3, 2, 1], 0), 0x0102_0304_0506_0708);
    assert_eq!(le_u64(&[0xff; 8], 0), u64::MAX);
    assert_eq!(le_u64(&[0, 1, 0, 0, 0, 0, 0, 0, 0, 9], 1), 1);
    assert_eq!(le_u64(&[0, 0, 1, 0, 0, 0, 0, 0, 0], 1), 256);
    assert_eq!(le_u64(&1_000_000_007u64.to_le_bytes(), 0), 1_000_000_007);
}

#[test]
fn address_at_copies_thirty_two_bytes() {
    let data = payload(&[0, 0], 2, 0);
    assert_eq!(address_at(&data, 2), [1u8; 32]);
    assert_eq!(address_at(&data, 34), [2u8; 32]);
    let mut mixed = [1u8; 32];
    mixed[31] = 2;
    assert_eq!(address_at(&data, 3), mixed);
}

fn update(creator: Option<[u8; 33]>, rest: &[u8]) -> Vec<u8> {
    let mut data = vec![0xaa; 32];
    match creator {
        Some(c) => data.extend_from_slice(&c),
        None => data.extend_from_slice(&[0u8; 33]),
    }
    data.extend_from_slice(rest);
    data
}

const NOTHING: ParsedContent = ParsedContent {
    creator: None,
    name: None,
    symbol: None,
    uri: None,
    seller_fee_basis_points: None,
};

#[test]
fn an_update_with_the_mint_alone_asks_for_nothing() {
    assert_eq!(parse_update(&[0xaa; 32]), NOTHING);
    assert_eq!(parse_update(&[]), NOTHING);
    assert_eq!(parse_update(&update(None, &[])), NOTHING);
}

#[test]
fn an_update_names_its_creator_behind_a_marker() {
    let mut creator = [5u8; 33];
    creator[0] = 1;
    assert_eq!(parse_update(&update(Some(creator), &[])), ParsedContent {
            creator: Some(Creator {
                source: ReferenceSource::Payload(33),
                verified: false,
                share: 100,
            }),
            ..NOTHING
        });
    creator[0] = 2;
    assert_eq!(parse_update(&update(Some(creator), &[])), NOTHING);
    // The marker is there, the address is cut short.
    let mut short = vec![0xaa; 32];
    short.push(1);
    short.extend_from_slice(&[5u8; 31]);
    assert_eq!(parse_update(&short), NOTHING);
}

#[test]
fn an_update_carries_name_symbol_uri_and_fee() {
    let mut rest = vec![1u8];
    rest.push(3);
    rest.extend_from_slice("abc".as_bytes());
    rest.push(2);
    rest.extend_from_slice("XY".as_bytes());
    rest.push(4);
    rest.extend_from_slice("u://".as_bytes());
    rest.extend_from_slice(&[0x01, 0xf4]);
    let data = update(None, &rest);
    assert_eq!(
        parse_update(&data),
        ParsedContent {
            creator: None,
            name: Some(TextRange { start: 67, len: 3 }),
            symbol: Some(TextRange { start: 71, len: 2 }),
            uri: Some(TextRange { start: 74, len: 4 }),
            seller_fee_basis_points: Some(500),
        }
    );
    assert_eq!(&data[67..70], "abc".as_bytes());
    assert_eq!(&data[71..73], "XY".as_bytes());
    assert_eq!(&data[74..78], "u://".as_bytes());
}

#[test]
fn an_update_without_its_marker_carries_no_content() {
    let mut rest = vec![0u8];
    rest.push(3);
    rest.extend_from_slice("abc".as_bytes());
    assert_eq!(parse_update(&update(None, &rest)), NOTHING);
}

#[test]
fn a_name_that_is_not_text_is_left_out_and_the_symbol_is_read_in_its_place() {
    // The name's bytes are not valid UTF-8, so the symbol is read from offset 67.
    let mut rest = vec![1u8];
    rest.push(2);
    rest.extend_from_slice(&[0xff, 0xfe]);
    let data = update(None, &rest);
    let parsed = parse_update(&data);
    assert_eq!(parsed.name, None);
    // At offset 67 stands 0xff: a length that the payload does not hold.
    assert_eq!(parsed.symbol, None);
    assert_eq!(parsed.uri, None);
    // The fee is read from offset 67 as well.
    assert_eq!(parsed.seller_fee_basis_points, Some(0xfffe));
}

#[test]
fn a_text_of_two_byte_characters_is_valid() {
    let mut rest = vec![1u8];
    let name = "héé";
    rest.push(name.len() as u8);
    rest.extend_from_slice(name.as_bytes());
    let parsed = parse_update(&update(None, &rest));
    assert_eq!(parsed.name, Some(TextRange { start: 67, len: 5 }));
    assert_eq!(parsed.symbol, None);
    assert_eq!(parsed.seller_fee_basis_points, None);
}

#[test]
fn a_name_that_is_cut_short_is_left_out() {
    let mut rest = vec![1u8];
    rest.push(10);
    rest.extend_from_slice("abc".as_bytes());
    let parsed = parse_update(&update(None, &rest));
    assert_eq!(parsed.name, None);
    // At offset 67 stands 'a' (97): no symbol of that length either.
    assert_eq!(parsed.symbol, None);
    assert_eq!(parsed.seller_fee_basis_points, Some(((b'a' as u16) << 8) | b'b' as u16));
}
