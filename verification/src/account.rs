//! An account as an instruction sees it.

use vstd::prelude::*;
use crate::pubkey::Pubkey;

verus! {

/// What the ledger shows of one account to an instruction: where it is,
/// what it holds, and what the instruction may do with it.
#[derive(Clone, Debug, PartialEq, Eq)]
pub struct Account {
    /// The address of the account.
    pub key: Pubkey,
    /// The program that controls the account.
    pub owner: Pubkey,
    /// The native balance of the account.
    pub lamports: u64,
    /// The bytes stored in the account.
    pub data: Vec<u8>,
    /// Whether the account has signed the transaction.
    pub is_signer: bool,
    /// Whether the instruction may change the account.
    pub is_writable: bool,
}

impl Account {
    /// Whether the account stores no bytes: it has never been set up, or
    /// it has been closed.
    pub open spec fn spec_data_is_empty(&self) -> bool {
        self.data@.len() == 0
    }

    /// The address of the account.
    pub fn key(&self) -> (key: &Pubkey)
        ensures
            *key == self.key,
    {
        &self.key
    }

    /// Whether the account has signed the transaction.
    pub fn is_signer(&self) -> (b: bool)
        ensures
            b == self.is_signer,
    {
        self.is_signer
    }

    /// Whether the instruction may change the account.
    pub fn is_writable(&self) -> (b: bool)
        ensures
            b == self.is_writable,
    {
        self.is_writable
    }

    /// Whether the account stores no bytes.
    #[verifier::when_used_as_spec(spec_data_is_empty)]
    pub fn data_is_empty(&self) -> (b: bool)
        ensures
            b == self.spec_data_is_empty(),
    {
        self.data.len() == 0
    }

    /// The native balance of the account.
    pub fn lamports(&self) -> (n: u64)
        ensures
            n == self.lamports,
    {
        self.lamports
    }
}

} // verus!
