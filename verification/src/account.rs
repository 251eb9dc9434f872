//! What the engine reads of an account that a caller hands in.

use vstd::prelude::*;
use crate::hash_chain::hash_eq;

verus! {

/// One account as the host presents it: its address, the program that owns
/// it, whether it signed, its balance and its stored bytes.
#[derive(Clone, Debug, PartialEq, Eq)]
pub struct AccountView {
    pub key: [u8; 32],
    pub owner: [u8; 32],
    pub is_signer: bool,
    pub lamports: u64,
    pub data: Vec<u8>,
}

impl AccountView {
    /// Tells whether the account lives at `address`.
    pub fn is_at(&self, address: &[u8; 32]) -> (r: bool)
        ensures
            r == (self.key@ == address@),
    {
        hash_eq(&self.key, address)
    }

    /// Tells whether `program_id` owns the account.
    pub fn is_owned_by(&self, program_id: &[u8; 32]) -> (r: bool)
        ensures
            r == (self.owner@ == program_id@),
    {
        hash_eq(&self.owner, program_id)
    }
}

/// The programs of the host that the engine's calls are addressed to.
#[derive(Clone, Copy, Debug)]
pub struct HostPrograms {
    pub system: [u8; 32],
    pub token: [u8; 32],
    pub token_2022: [u8; 32],
    pub associated_token: [u8; 32],
}

} // verus!
