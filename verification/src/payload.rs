//! The layouts of the bytes that follow an opcode.

use vstd::prelude::*;
use crate::error::IssuanceError;
use crate::plan::{Creator, ParsedContent, ReferenceSource, TextRange};

verus! {

/// What a request with a proof carries: the round, the claimant's position where the
/// layout has one, and the siblings of the proof.
#[derive(Clone, Debug, PartialEq, Eq)]
pub struct ProofPayload {
    pub round_id: u8,
    pub position: Option<u16>,
    pub proof: Vec<[u8; 32]>,
}

/// The number of bytes before the proof: the round, and the position where
/// the layout has one.
pub open spec fn header_len(positioned: bool) -> int {
    if positioned {
        3
    } else {
        1
    }
}

/// The bytes are a header followed by whole siblings.
pub open spec fn well_shaped(data: Seq<u8>, positioned: bool) -> bool {
    data.len() >= header_len(positioned) && (data.len() - header_len(positioned)) % 32 == 0
}

/// The siblings that follow `offset` bytes of header, 32 bytes each.
pub open spec fn siblings_spec(data: Seq<u8>, offset: int) -> Seq<Seq<u8>> {
    Seq::new(
        ((data.len() - offset) / 32) as nat,
        |i: int| data.subrange(offset + 32 * i, offset + 32 * i + 32),
    )
}

/// The position that a positioned layout carries, low byte first.
pub open spec fn position_spec(data: Seq<u8>) -> u16 {
    (data[1] as int + 256 * (data[2] as int)) as u16
}

/// The number that eight bytes stand for, the lowest byte first.
pub open spec fn le_u64_spec(bytes: Seq<u8>) -> int {
    bytes[0] as int + 0x100 * (bytes[1] as int) + 0x1_0000 * (bytes[2] as int) + 0x100_0000 * (
    bytes[3] as int) + 0x1_0000_0000 * (bytes[4] as int) + 0x100_0000_0000 * (bytes[5] as int)
        + 0x1_0000_0000_0000 * (bytes[6] as int) + 0x100_0000_0000_0000 * (bytes[7] as int)
}

/// Reads eight bytes from `offset` on as a number, the lowest byte first.
pub fn le_u64(data: &[u8], offset: usize) -> (value: u64)
    requires
        offset + 8 <= data@.len(),
    ensures
        value == le_u64_spec(data@.subrange(offset as int, offset + 8)),
{
    let b0: u64 = data[offset] as u64;
    let b1: u64 = data[offset + 1] as u64;
    let b2: u64 = data[offset + 2] as u64;
    let b3: u64 = data[offset + 3] as u64;
    let b4: u64 = data[offset + 4] as u64;
    let b5: u64 = data[offset + 5] as u64;
    let b6: u64 = data[offset + 6] as u64;
    let b7: u64 = data[offset + 7] as u64;
    b0 + 0x100 * b1 + 0x1_0000 * b2 + 0x100_0000 * b3 + 0x1_0000_0000 * b4 + 0x100_0000_0000
        * b5 + 0x1_0000_0000_0000 * b6 + 0x100_0000_0000_0000 * b7
}

/// Copies the 32 bytes that start at `offset`.
pub fn address_at(data: &[u8], offset: usize) -> (address: [u8; 32])
    requires
        offset + 32 <= data@.len(),
    ensures
        address@ == data@.subrange(offset as int, offset + 32),
{
    let len: usize = data.len();
    let mut address: [u8; 32] = [0u8; 32];
    let mut i: usize = 0;
    while i < 32
        invariant
            i <= 32,
            len == data@.len(),
            offset + 32 <= len,
            forall|j: int| 0 <= j < i ==> address@[j] == data@[offset + j],
        decreases 32 - i,
    {
        address[i] = data[offset + i];
        i += 1;
    }
    assert(address@ =~= data@.subrange(offset as int, offset + 32));
    address
}

/// The siblings of a proof payload, or a parse error where what follows the
/// header is not a whole number of siblings.
pub fn proof_of(data: &[u8], positioned: bool) -> (r: Result<Vec<[u8; 32]>, IssuanceError>)
    ensures
        !well_shaped(data@, positioned) ==> r == Err::<Vec<[u8; 32]>, IssuanceError>(
            IssuanceError::ParseError,
        ),
        well_shaped(data@, positioned) ==> r is Ok && crate::membership::nodes(r->Ok_0@)
            == siblings_spec(data@, header_len(positioned)),
{
    let offset: usize = if positioned {
        3
    } else {
        1
    };
    if data.len() < offset || (data.len() - offset) % 32 != 0 {
        return Err(IssuanceError::ParseError);
    }
    let len: usize = data.len();
    let count: usize = (len - offset) / 32;
    let mut proof: Vec<[u8; 32]> = Vec::with_capacity(count);
    let mut i: usize = 0;
    while i < count
        invariant
            i <= count,
            len == data@.len(),
            offset + 32 * count == len,
            proof@.len() == i,
            forall|j: int|
                0 <= j < i ==> (#[trigger] proof@[j])@ == data@.subrange(
                    offset + 32 * j,
                    offset + 32 * j + 32,
                ),
        decreases count - i,
    {
        let node = address_at(data, offset + 32 * i);
        proof.push(node);
        i += 1;
    }
    assert(crate::membership::nodes(proof@) =~= siblings_spec(data@, offset as int));
    Ok(proof)
}

/// The position that a positioned payload names: its second and third byte,
/// the low byte first.
pub fn position_of(data: &[u8]) -> (position: u16)
    requires
        data@.len() >= 3,
    ensures
        position == position_spec(data@),
{
    let low: u16 = data[1] as u16;
    let high: u16 = data[2] as u16;
    low + 256 * high
}

/// What a well-formed proof payload holds.
pub open spec fn payload_matches(payload: ProofPayload, data: Seq<u8>, positioned: bool) -> bool {
    &&& payload.round_id == data[0]
    &&& payload.position == (if positioned {
        Some(position_spec(data))
    } else {
        None::<u16>
    })
    &&& crate::membership::nodes(payload.proof@) == siblings_spec(data, header_len(positioned))
}

/// Reads a proof payload: one byte of round, two bytes of position where the
/// layout has them, then the siblings. Any other length is a parse error.
pub fn parse_proof_payload(data: &[u8], positioned: bool) -> (r: Result<ProofPayload, IssuanceError>)
    ensures
        !well_shaped(data@, positioned) ==> r is Err && r->Err_0 == IssuanceError::ParseError,
        well_shaped(data@, positioned) ==> r is Ok && payload_matches(r->Ok_0, data@, positioned),
{
    match proof_of(data, positioned) {
        Err(e) => Err(e),
        Ok(proof) => {
            let position = if positioned {
                Some(position_of(data))
            } else {
                None
            };
            Ok(ProofPayload { round_id: data[0], position, proof })
        },
    }
}

/// Calls `core::str::from_utf8` and tells whether it accepted the bytes.
/// Trusted: it accepts exactly the byte strings that are well-formed UTF-8.
#[verifier::external_body]
fn is_utf8(bytes: &[u8]) -> (valid: bool)
    ensures
        valid == vstd::utf8::valid_utf8(bytes@),
{
    core::str::from_utf8(bytes).is_ok()
}

/// The text whose length byte stands at `offset`: the bytes that follow it,
/// if the payload holds that many and they are well-formed UTF-8.
pub open spec fn text_at(data: Seq<u8>, present: bool, offset: int) -> Option<TextRange> {
    if present && 0 <= offset < data.len() && data.len() >= offset + 1 + data[offset]
        && vstd::utf8::valid_utf8(data.subrange(offset + 1, offset + 1 + data[offset])) {
        Some(TextRange { start: (offset + 1) as usize, len: data[offset] as usize })
    } else {
        None
    }
}

/// Where the field after a text begins: after the text if there is one,
/// else where the text would have begun.
pub open spec fn after_text(text: Option<TextRange>, offset: int) -> int {
    match text {
        Some(range) => range.start + range.len,
        None => offset,
    }
}

/// What the payload of an update asks for, after the 32 bytes of the mint:
/// a marker and the address of a creator, unverified, with the whole share; a marker, then a name, a symbol and a
/// uri, each behind its length, and a fee of two bytes, the high byte first.
/// A field that is absent, cut short or not well-formed is left out, and what
/// follows it is read from where it would have begun.
pub open spec fn parsed_update_spec(data: Seq<u8>) -> ParsedContent {
    let described = data.len() > 65 && data[65] == 1;
    let name = text_at(data, described, 66);
    let symbol_offset = after_text(name, 67);
    let symbol = text_at(data, described, symbol_offset);
    let uri_offset = after_text(symbol, symbol_offset);
    let uri = text_at(data, described, uri_offset);
    let fee_offset = after_text(uri, uri_offset);
    ParsedContent {
        creator: if data.len() >= 65 && data[32] == 1 {
            Some(Creator { source: ReferenceSource::Payload(33), verified: false, share: 100 })
        } else {
            None
        },
        name,
        symbol,
        uri,
        seller_fee_basis_points: if described && data.len() >= fee_offset + 2 {
            Some((256 * (data[fee_offset] as int) + data[fee_offset + 1] as int) as u16)
        } else {
            None
        },
    }
}

/// Reads the text whose length byte stands at `offset`.
fn read_text(data: &[u8], present: bool, offset: usize) -> (text: Option<TextRange>)
    ensures
        text == text_at(data@, present, offset as int),
{
    let len: usize = data.len();
    if !present || offset >= len {
        return None;
    }
    let count: usize = data[offset] as usize;
    if len - offset - 1 < count {
        return None;
    }
    if is_utf8(vstd::slice::slice_subrange(data, offset + 1, offset + 1 + count)) {
        Some(TextRange { start: offset + 1, len: count })
    } else {
        None
    }
}

/// Where the field after a text begins.
fn next_offset(text: &Option<TextRange>, offset: usize) -> (next: usize)
    requires
        text matches Some(range) ==> range.start + range.len <= usize::MAX,
    ensures
        next == after_text(*text, offset as int),
{
    match text {
        Some(range) => range.start + range.len,
        None => offset,
    }
}

/// Reads what the payload of an update asks for.
pub fn parse_update(data: &[u8]) -> (parsed: ParsedContent)
    ensures
        parsed == parsed_update_spec(data@),
{
    let len: usize = data.len();
    let described = len > 65 && data[65] == 1;
    let creator = if len >= 65 && data[32] == 1 {
        Some(Creator { source: ReferenceSource::Payload(33), verified: false, share: 100 })
    } else {
        None
    };
    let name = read_text(data, described, 66);
    let symbol_offset = next_offset(&name, 67);
    let symbol = read_text(data, described, symbol_offset);
    let uri_offset = next_offset(&symbol, symbol_offset);
    let uri = read_text(data, described, uri_offset);
    let fee_offset = next_offset(&uri, uri_offset);
    let seller_fee_basis_points = if described && fee_offset <= len && len - fee_offset >= 2 {
        let high: u16 = data[fee_offset] as u16;
        let low: u16 = data[fee_offset + 1] as u16;
        Some(256 * high + low)
    } else {
        None
    };
    ParsedContent { creator, name, symbol, uri, seller_fee_basis_points }
}

} // verus!
