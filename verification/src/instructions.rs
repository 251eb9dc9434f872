//! The single operations, one module each.

pub mod collection_extended;
pub mod collection_positioned;
pub mod fixed_update;
pub mod limited_asset;
pub mod manual_record;
pub mod plain_mint;
pub mod print_edition;
pub mod programmable_asset;
pub mod reclaim_wide;
pub mod tracked_asset;
pub mod tracked_asset_record;
pub mod tracked_programmable;
pub mod universal_update;
pub mod withdraw;
