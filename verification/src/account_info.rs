//! One account as a call sees it.
use vstd::prelude::*;
use crate::pubkey::{pubkey_eq, Pubkey};

verus! {

/// An account handed to the program for the duration of one call: where it
/// lives, who owns it, what it holds, and what the caller lets the program do
/// with it.
#[derive(Clone, Debug, PartialEq, Eq)]
pub struct AccountInfo {
    /// The account's address.
    pub key: Pubkey,
    /// The program that owns the account.
    pub owner: Pubkey,
    /// The account's balance.
    pub lamports: u64,
    /// The account's data.
    pub data: Vec<u8>,
    /// Whether the account signed the transaction.
    pub is_signer: bool,
    /// Whether the call may change the account.
    pub is_writable: bool,
    /// Whether the account holds a program.
    pub executable: bool,
}

impl AccountInfo {
    /// Whether `program` owns the account.
    pub fn is_owned_by(&self, program: &Pubkey) -> (owned: bool)
        ensures
            owned == (self.owner@ == program@),
    {
        pubkey_eq(&self.owner, program)
    }

    /// Whether the account lives at `address`.
    pub fn has_key(&self, address: &Pubkey) -> (same: bool)
        ensures
            same == (self.key@ == address@),
    {
        pubkey_eq(&self.key, address)
    }

    /// The number of bytes the account holds.
    pub fn data_len(&self) -> (len: usize)
        ensures
            len == self.data@.len(),
    {
        self.data.len()
    }
}

/// How a nested call refers to one account: its address and what the callee
/// may do with it.
#[derive(Clone, Copy, Debug, PartialEq, Eq)]
pub struct AccountMeta {
    /// The account's address.
    pub pubkey: Pubkey,
    /// Whether the callee may change the account.
    pub is_writable: bool,
    /// Whether the account signs the nested call.
    pub is_signer: bool,
}

impl AccountMeta {
    /// An account that the callee may only read.
    pub fn readonly(pubkey: &Pubkey) -> (meta: AccountMeta)
        ensures
            meta == (AccountMeta { pubkey: *pubkey, is_writable: false, is_signer: false }),
    {
        AccountMeta { pubkey: *pubkey, is_writable: false, is_signer: false }
    }

    /// An account that the callee may change.
    pub fn writable(pubkey: &Pubkey) -> (meta: AccountMeta)
        ensures
            meta == (AccountMeta { pubkey: *pubkey, is_writable: true, is_signer: false }),
    {
        AccountMeta { pubkey: *pubkey, is_writable: true, is_signer: false }
    }

    /// An account that signs and that the callee may only read.
    pub fn readonly_signer(pubkey: &Pubkey) -> (meta: AccountMeta)
        ensures
            meta == (AccountMeta { pubkey: *pubkey, is_writable: false, is_signer: true }),
    {
        AccountMeta { pubkey: *pubkey, is_writable: false, is_signer: true }
    }

    /// An account that signs and that the callee may change.
    pub fn writable_signer(pubkey: &Pubkey) -> (meta: AccountMeta)
        ensures
            meta == (AccountMeta { pubkey: *pubkey, is_writable: true, is_signer: true }),
    {
        AccountMeta { pubkey: *pubkey, is_writable: true, is_signer: true }
    }
}

} // verus!
