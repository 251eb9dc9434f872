//! The calls that an attempt asks its host to make, in their order. A step
//! names accounts by their position in the list that the caller handed in.

use vstd::prelude::*;
use crate::account::AccountView;
use crate::address::{
    bytes_of, record_seeds, round_byte, round_byte_seed, round_wide, round_wide_seed, sign,
    signature_spec, AUTHORITY_TAG, EXTENDED_RECORD_TAG, RECORD_TAG,
};

verus! {

/// The two token programs that a mint can live under.
#[derive(Clone, Copy, Debug, PartialEq, Eq, Structural)]
pub enum TokenFlavor {
    Classic,
    Extended,
}

/// The program that owns a newly allocated account.
#[derive(Clone, Copy, Debug, PartialEq, Eq, Structural)]
pub enum Owner {
    /// A token program: the account becomes a mint.
    Token(TokenFlavor),
    /// This program: the account becomes a ledger record.
    Engine,
}

/// The address spaces of the ledger. Each has one tag and one way to write
/// the round, which whoever creates a record and whoever tears it down share.
#[derive(Clone, Copy, Debug, PartialEq, Eq, Structural)]
pub enum RecordSchema {
    /// The tag `is_minted_ext`, the round as one byte.
    Extended,
    /// The tag `minted`, the round as eight bytes, low byte first.
    Wide,
}

/// Who signs a call in the program's name. The seeds are computed when the
/// call is made; nothing secret is kept.
#[derive(Clone, Copy, Debug, PartialEq, Eq, Structural)]
pub enum Signer {
    /// Only the accounts that signed the request.
    Nobody,
    /// The signing authority, with its bump seed.
    Authority { bump: u8 },
    /// The record of the claimant at position `claimant` for `round`.
    Record { schema: RecordSchema, round: u64, claimant: usize, bump: u8 },
}

/// How many prints an asset allows.
#[derive(Clone, Copy, Debug, PartialEq, Eq, Structural)]
pub enum PrintSupply {
    Zero,
    Limited(u64),
}

/// The standard that an asset follows.
#[derive(Clone, Copy, Debug, PartialEq, Eq, Structural)]
pub enum AssetStandard {
    NonFungible,
    Programmable,
}

/// Where an address comes from.
#[derive(Clone, Copy, Debug, PartialEq, Eq, Structural)]
pub enum ReferenceSource {
    /// The address of the account at this position.
    Account(usize),
    /// The 32 bytes of the payload from this offset on.
    Payload(usize),
}

/// A creator that an asset names, with the share of the fee that is the
/// creator's, in per cent.
#[derive(Clone, Copy, Debug, PartialEq, Eq, Structural)]
pub struct Creator {
    pub source: ReferenceSource,
    pub verified: bool,
    pub share: u8,
}

/// The descriptive content of an asset. The engine passes it on unread.
/// Where `number` is set, it is appended to the name and to the symbol.
#[derive(Clone, Copy, Debug, PartialEq, Eq)]
pub struct Content {
    pub name: &'static str,
    pub symbol: &'static str,
    pub uri: &'static str,
    pub seller_fee_basis_points: u16,
    pub number: Option<u16>,
}

/// The content of a plain asset with the given fee.
pub open spec fn plain_spec(seller_fee_basis_points: u16) -> Content {
    Content { name: "NFT", symbol: "NFT", uri: "", seller_fee_basis_points, number: None }
}

/// The content of a plain asset with the given fee.
#[verifier::when_used_as_spec(plain_spec)]
pub fn plain(seller_fee_basis_points: u16) -> (content: Content)
    ensures
        content == plain_spec(seller_fee_basis_points),
{
    Content { name: "NFT", symbol: "NFT", uri: "", seller_fee_basis_points, number: None }
}

/// The content of a programmable asset.
pub open spec fn programmable_spec() -> Content {
    Content {
        name: "pNFT",
        symbol: "PNFT",
        uri: "https://example.com/metadata.json",
        seller_fee_basis_points: 500,
        number: None,
    }
}

/// The content of a programmable asset.
#[verifier::when_used_as_spec(programmable_spec)]
pub fn programmable() -> (content: Content)
    ensures
        content == programmable_spec(),
{
    Content {
        name: "pNFT",
        symbol: "PNFT",
        uri: "https://example.com/metadata.json",
        seller_fee_basis_points: 500,
        number: None,
    }
}

/// The content of an asset of the first collection.
pub open spec fn collected_spec() -> Content {
    Content {
        name: "YAPSTER pNFT 36",
        symbol: "YAPPNFT36",
        uri: "https://a.b/c.json",
        seller_fee_basis_points: 500,
        number: None,
    }
}

/// The content of an asset of the first collection.
#[verifier::when_used_as_spec(collected_spec)]
pub fn collected() -> (content: Content)
    ensures
        content == collected_spec(),
{
    Content {
        name: "YAPSTER pNFT 36",
        symbol: "YAPPNFT36",
        uri: "https://a.b/c.json",
        seller_fee_basis_points: 500,
        number: None,
    }
}

/// The content that an update sets on the fixed asset.
pub open spec fn infinity_spec() -> Content {
    Content {
        name: "Yapster Infinity 39",
        symbol: "YAPI39",
        uri: "https://a.b/c.json",
        seller_fee_basis_points: 1000,
        number: None,
    }
}

/// The content that an update sets on the fixed asset.
#[verifier::when_used_as_spec(infinity_spec)]
pub fn infinity() -> (content: Content)
    ensures
        content == infinity_spec(),
{
    Content {
        name: "Yapster Infinity 39",
        symbol: "YAPI39",
        uri: "https://a.b/c.json",
        seller_fee_basis_points: 1000,
        number: None,
    }
}

/// The content of a numbered asset of the second collection: the number is
/// the claimant's position.
pub open spec fn dimensions_spec(number: Option<u16>) -> Content {
    Content {
        name: "Yapster Dimensions #",
        symbol: "YAPI",
        uri: "https://a.b/c.json",
        seller_fee_basis_points: 1000,
        number,
    }
}

/// The content of a numbered asset of the second collection.
#[verifier::when_used_as_spec(dimensions_spec)]
pub fn dimensions(number: Option<u16>) -> (content: Content)
    ensures
        content == dimensions_spec(number),
{
    Content {
        name: "Yapster Dimensions #",
        symbol: "YAPI",
        uri: "https://a.b/c.json",
        seller_fee_basis_points: 1000,
        number,
    }
}

/// A stretch of the payload: `len` bytes from `start` on.
#[derive(Clone, Copy, Debug, PartialEq, Eq, Structural)]
pub struct TextRange {
    pub start: usize,
    pub len: usize,
}

/// New descriptive content that the payload of an update carries. A text
/// that is absent is set to the empty text, an absent fee to 0.
#[derive(Clone, Copy, Debug, PartialEq, Eq, Structural)]
pub struct ParsedContent {
    pub creator: Option<Creator>,
    pub name: Option<TextRange>,
    pub symbol: Option<TextRange>,
    pub uri: Option<TextRange>,
    pub seller_fee_basis_points: Option<u16>,
}

/// The content that an update sets.
#[derive(Clone, Copy, Debug, PartialEq, Eq)]
pub enum NewContent {
    Fixed(Content),
    Parsed(ParsedContent),
}

/// One byte of an account's data.
#[derive(Clone, Copy, Debug, PartialEq, Eq, Structural)]
pub enum BytePlace {
    At(usize),
    Last,
}

/// One call. Every field that is a `usize` is the position of an account.
#[allow(inconsistent_fields)]
#[derive(Clone, Copy, Debug, PartialEq, Eq)]
pub enum Call {
    /// Allocate `space` bytes at `account`, paid by `payer`, owned by `owner`.
    Allocate { payer: usize, account: usize, system_program: usize, space: u64, owner: Owner },
    /// Make `mint` a mint of `decimals` decimals whose mint and freeze
    /// authority is `authority`.
    InitializeMint {
        flavor: TokenFlavor,
        decimals: u8,
        mint: usize,
        authority: usize,
        rent: usize,
        token_program: Option<usize>,
    },
    /// Create the holding account of `holder` for `mint`.
    CreateHoldingAccount {
        flavor: TokenFlavor,
        idempotent: bool,
        payer: usize,
        holding: usize,
        holder: usize,
        mint: usize,
        system_program: usize,
        token_program: usize,
        associated_token_program: usize,
        rent: usize,
    },
    /// Mint `amount` units of `mint` into `destination`.
    MintUnit {
        amount: u64,
        mint: usize,
        destination: usize,
        authority: usize,
        token_program: Option<usize>,
        countersigned: bool,
    },
    /// Create the descriptive record of `mint`.
    CreateMetadata {
        metadata: usize,
        mint: usize,
        authority: usize,
        payer: usize,
        metadata_program: usize,
        system_program: usize,
        rent: usize,
        token_program: usize,
        content: Content,
    },
    /// Create the master edition of `mint`, which allows `max_supply` prints.
    CreateMasterEdition {
        max_supply: Option<u64>,
        edition: usize,
        metadata: usize,
        mint: usize,
        authority: usize,
        payer: usize,
        metadata_program: usize,
        token_program: usize,
        system_program: usize,
        rent: usize,
        spl_token_program: usize,
    },
    /// Create a programmable asset: its descriptive record and master
    /// edition in one call.
    CreateAsset {
        standard: AssetStandard,
        decimals: u8,
        metadata: usize,
        master_edition: usize,
        mint: usize,
        authority: usize,
        payer: usize,
        update_authority: usize,
        system_program: usize,
        sysvar_instructions: usize,
        token_program: usize,
        metadata_program: Option<usize>,
        content: Content,
        collection: Option<usize>,
        creator: Option<Creator>,
        print_supply: PrintSupply,
    },
    /// Mint `amount` units of a programmable asset to `token_owner`.
    MintAsset {
        amount: u64,
        token: usize,
        token_owner: usize,
        metadata: usize,
        master_edition: usize,
        token_record: usize,
        mint: usize,
        authority: usize,
        payer: usize,
        system_program: usize,
        sysvar_instructions: usize,
        token_program: usize,
        associated_token_program: usize,
        metadata_program: usize,
    },
    /// Confirm that the asset belongs to its collection.
    VerifyCollection {
        metadata: usize,
        authority: usize,
        collection_mint: usize,
        collection_metadata: usize,
        collection_master_edition: usize,
        system_program: usize,
        sysvar_instructions: usize,
    },
    /// Replace the descriptive content of `mint`.
    UpdateAsset {
        authority: usize,
        mint: usize,
        metadata: usize,
        payer: usize,
        system_program: usize,
        sysvar_instructions: usize,
        content: NewContent,
    },
    /// Print edition `edition_number` of a master edition for the payer.
    PrintEdition {
        edition_metadata: usize,
        edition: usize,
        master_edition: usize,
        edition_mint: usize,
        edition_marker: usize,
        edition_mint_authority: usize,
        payer: usize,
        master_token_account_owner: usize,
        master_token_account: usize,
        update_authority: usize,
        master_metadata: usize,
        token_program: usize,
        system_program: usize,
        sysvar_instructions: usize,
        spl_token_program: usize,
        associated_token_program: usize,
        edition_number: u64,
    },
    /// Send `lamports` from `from` to `to`.
    Transfer { from: usize, to: usize, system_program: usize, lamports: u64 },
    /// Store a reference in the first 32 bytes of `record`.
    WriteReference { record: usize, source: ReferenceSource },
    /// Write the standard's number into the byte at `place` of `account`.
    MarkStandard { account: usize, place: BytePlace, standard: AssetStandard },
    /// Tear down the record of the beneficiary for `round`: the record's
    /// balance goes to the beneficiary and its bytes are zeroed.
    Release { record: usize, beneficiary: usize, schema: RecordSchema, round: u64 },
}

/// One step of a plan: a call and who signs it.
#[derive(Clone, Copy, Debug, PartialEq, Eq)]
pub struct Step {
    pub call: Call,
    pub signer: Signer,
}

impl RecordSchema {
    /// The tag that sets the address space.
    pub open spec fn tag_spec(self) -> Seq<u8> {
        match self {
            RecordSchema::Extended => EXTENDED_RECORD_TAG@,
            RecordSchema::Wide => RECORD_TAG@,
        }
    }

    /// The round as the schema writes it.
    pub open spec fn round_spec(self, round: u64) -> Seq<u8> {
        match self {
            RecordSchema::Extended => round_byte(round as u8),
            RecordSchema::Wide => round_wide(round),
        }
    }

    /// The tag that sets the address space.
    pub fn tag(&self) -> (tag: Vec<u8>)
        ensures
            tag@ == self.tag_spec(),
    {
        match self {
            RecordSchema::Extended => bytes_of(EXTENDED_RECORD_TAG.as_slice()),
            RecordSchema::Wide => bytes_of(RECORD_TAG.as_slice()),
        }
    }

    /// The round as the schema writes it.
    pub fn round_seed(&self, round: u64) -> (seed: Vec<u8>)
        ensures
            seed@ == self.round_spec(round),
    {
        match self {
            RecordSchema::Extended => round_byte_seed(round as u8),
            RecordSchema::Wide => round_wide_seed(round),
        }
    }
}

/// The seeds that a signer signs with; none where nobody does.
pub open spec fn signer_seeds_spec(signer: Signer, accounts: Seq<AccountView>) -> Seq<Seq<u8>> {
    match signer {
        Signer::Nobody => Seq::empty(),
        Signer::Authority { bump } => signature_spec(seq![AUTHORITY_TAG@], bump),
        Signer::Record { schema, round, claimant, bump } => signature_spec(
            record_seeds(schema.tag_spec(), schema.round_spec(round), accounts[claimant as int].key@),
            bump,
        ),
    }
}

/// Computes the seeds that `signer` signs with.
pub fn signer_seeds(signer: &Signer, accounts: &[AccountView]) -> (seeds: Vec<Vec<u8>>)
    requires
        signer matches Signer::Record { claimant, .. } ==> claimant < accounts@.len(),
    ensures
        seeds.deep_view() == signer_seeds_spec(*signer, accounts@),
{
    match signer {
        Signer::Nobody => {
            let seeds: Vec<Vec<u8>> = Vec::new();
            assert(seeds.deep_view() =~~= Seq::<Seq<u8>>::empty());
            seeds
        },
        Signer::Authority { bump } => {
            let seeds: Vec<Vec<u8>> = vec![bytes_of(AUTHORITY_TAG.as_slice())];
            assert(seeds.deep_view() =~~= seq![AUTHORITY_TAG@]);
            sign(seeds, *bump)
        },
        Signer::Record { schema, round, claimant, bump } => {
            let seeds: Vec<Vec<u8>> = vec![
                schema.tag(),
                schema.round_seed(*round),
                bytes_of(accounts[*claimant].key.as_slice()),
            ];
            assert(seeds.deep_view() =~~= record_seeds(
                schema.tag_spec(),
                schema.round_spec(*round),
                accounts@[*claimant as int].key@,
            ));
            sign(seeds, *bump)
        },
    }
}

/// The step allocates the ledger record at position `record`.
pub open spec fn allocates_record(step: Step, record: usize) -> bool {
    step.call matches Call::Allocate { account, owner, .. } && account == record && owner
        == Owner::Engine
}

/// The step writes the ledger record at position `record`.
pub open spec fn writes_record(step: Step, record: usize) -> bool {
    step.call matches Call::WriteReference { record: target, .. } && target == record
}

/// The step touches the ledger.
pub open spec fn touches_ledger(step: Step) -> bool {
    step.call is WriteReference || (step.call matches Call::Allocate { owner, .. } && owner
        == Owner::Engine)
}

/// The step creates a part of the token: the mint's account, the mint, the
/// holding account, or units of the token.
pub open spec fn creates_token(step: Step) -> bool {
    ||| (step.call matches Call::Allocate { owner, .. } && owner is Token)
    ||| step.call is InitializeMint
    ||| step.call is CreateHoldingAccount
    ||| step.call is MintUnit
    ||| step.call is MintAsset
}

/// The order that every issuing plan keeps. The record at position `record`
/// is allocated and written once, the write straight after the allocation, and
/// no other step touches the ledger. The token is created before: a step that
/// creates a part of it comes before the record, and none comes after.
pub open spec fn ledger_once_after_creation(steps: Seq<Step>, record: usize) -> bool {
    exists|k: int|
        {
            &&& 0 < k
            &&& k + 1 < steps.len()
            &&& allocates_record(#[trigger] steps[k], record)
            &&& writes_record(steps[k + 1], record)
            &&& creates_token(steps[0])
            &&& forall|j: int|
                0 <= j < steps.len() && j != k && j != k + 1 ==> !touches_ledger(#[trigger] steps[j])
            &&& forall|j: int| k + 1 < j < steps.len() ==> !creates_token(#[trigger] steps[j])
        }
}

} // verus!
