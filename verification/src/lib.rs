//! An issuance engine behind an allowlist: Merkle membership proofs over
//! per-round commitments, deterministic addresses for issuance records, and the
//! ordered pipeline that issues exactly once per claimant and round.

pub mod account;
pub mod address;
pub mod checks;
pub mod clean_asset;
pub mod eligibility;
pub mod error;
pub mod existing_master_edition;
pub mod existing_metadata;
pub mod hash_chain;
pub mod instructions;
pub mod ledger;
pub mod membership;
pub mod payload;
pub mod pipeline;
pub mod plan;
pub mod reclaim;
pub mod registry;
pub mod resource;
pub mod tracked_clean_asset;
pub mod tracked_edition;
pub mod tracked_mint;
pub mod tracked_mint_metadata;
pub mod tree;

use vstd::prelude::*;
use crate::account::AccountView;
use crate::eligibility::Deployment;
use crate::error::IssuanceError;
use crate::pipeline::outcome_is;
use crate::plan::Step;

verus! {

/// The opcode that only tells that the program answers.
pub const OP_PING: u8 = 0;

/// The opcode that tears a claimant's record down.
pub const OP_RECLAIM: u8 = 15;

/// The opcode of the tracked issuance.
pub const OP_TRACKED_MINT: u8 = 16;

/// The opcode of the tracked issuance with a descriptive record.
pub const OP_TRACKED_MINT_METADATA: u8 = 17;

/// The opcode that describes an existing mint.
pub const OP_EXISTING_METADATA: u8 = 18;

/// The opcode that makes an existing mint a master edition.
pub const OP_EXISTING_MASTER_EDITION: u8 = 20;

/// The opcode of the tracked issuance with descriptive record and master
/// edition.
pub const OP_TRACKED_EDITION: u8 = 21;

/// The first opcode that creates an asset with no proof asked.
pub const OP_CLEAN_ASSET: u8 = 23;

/// The second opcode that creates an asset with no proof asked.
pub const OP_CLEAN_ASSET_HOLDING: u8 = 24;

/// What an input comes to: its first byte selects the operation, which gets
/// the bytes after it. An empty input and an unknown opcode are parse errors.
pub open spec fn dispatch_spec(
    deployment: Deployment,
    accounts: Seq<AccountView>,
    instruction_data: Seq<u8>,
) -> Result<Seq<Step>, IssuanceError> {
    let rest = instruction_data.subrange(1, instruction_data.len() as int);
    if instruction_data.len() == 0 {
        Err(IssuanceError::ParseError)
    } else if instruction_data[0] == OP_PING {
        Ok(Seq::empty())
    } else if instruction_data[0] == OP_RECLAIM {
        crate::reclaim::outcome_spec(deployment, accounts, rest)
    } else if instruction_data[0] == OP_TRACKED_MINT {
        crate::tracked_mint::outcome_spec(deployment, accounts, rest)
    } else if instruction_data[0] == OP_TRACKED_MINT_METADATA {
        crate::tracked_mint_metadata::outcome_spec(deployment, accounts, rest)
    } else if instruction_data[0] == OP_EXISTING_METADATA {
        crate::existing_metadata::outcome_spec(deployment, accounts, rest)
    } else if instruction_data[0] == OP_EXISTING_MASTER_EDITION {
        crate::existing_master_edition::outcome_spec(deployment, accounts, rest)
    } else if instruction_data[0] == OP_TRACKED_EDITION {
        crate::tracked_edition::outcome_spec(deployment, accounts, rest)
    } else if instruction_data[0] == OP_CLEAN_ASSET || instruction_data[0]
        == OP_CLEAN_ASSET_HOLDING {
        crate::clean_asset::outcome_spec(deployment, accounts, rest)
    } else {
        Err(IssuanceError::ParseError)
    }
}

/// Routes an input to the operation that its first byte selects and gives
/// back what that operation finds or plans.
pub fn process_instruction(
    deployment: &Deployment,
    accounts: &[AccountView],
    instruction_data: &[u8],
) -> (r: Result<Vec<Step>, IssuanceError>)
    ensures
        outcome_is(r, dispatch_spec(*deployment, accounts@, instruction_data@)),
{
    if instruction_data.len() == 0 {
        return Err(IssuanceError::ParseError);
    }
    let opcode: u8 = instruction_data[0];
    let rest = vstd::slice::slice_subrange(instruction_data, 1, instruction_data.len());
    if opcode == OP_PING {
        let nothing: Vec<Step> = Vec::new();
        assert(nothing@ =~= Seq::<Step>::empty());
        Ok(nothing)
    } else if opcode == OP_RECLAIM {
        crate::reclaim::delete_mint_record_for_round(deployment, accounts, rest)
    } else if opcode == OP_TRACKED_MINT {
        crate::tracked_mint::create_mint_and_token_with_round_merkle_proof_tracked_extended(
            deployment,
            accounts,
            rest,
        )
    } else if opcode == OP_TRACKED_MINT_METADATA {
        crate::tracked_mint_metadata::create_mint_token_with_merkle_proof_tracked_extended_and_metadata(
            deployment,
            accounts,
            rest,
        )
    } else if opcode == OP_EXISTING_METADATA {
        crate::existing_metadata::create_metadata_for_existing_mint(deployment, accounts, rest)
    } else if opcode == OP_EXISTING_MASTER_EDITION {
        crate::existing_master_edition::create_master_edition_for_existing_mint(
            deployment,
            accounts,
            rest,
        )
    } else if opcode == OP_TRACKED_EDITION {
        crate::tracked_edition::create_mint_metadata_and_master_edition(deployment, accounts, rest)
    } else if opcode == OP_CLEAN_ASSET {
        crate::clean_asset::create_clean_nft_and_mint(deployment, accounts, rest)
    } else if opcode == OP_CLEAN_ASSET_HOLDING {
        crate::clean_asset::create_clean_nft_and_ata(deployment, accounts, rest)
    } else {
        Err(IssuanceError::ParseError)
    }
}

} // verus!

