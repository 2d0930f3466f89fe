//! The token program and the accounts it owns.
use vstd::prelude::*;
use crate::account_info::AccountInfo;
use crate::account_set::{
    AccountCursor, AccountSetCleanup, AccountSetDecode, AccountSetValidate, SingleAccountSet,
};
use crate::context::Context;
use crate::errors::{ErrorCode, ValidationError};
use crate::program::StarFrameProgram;
use crate::pubkey::{pubkey_eq, Pubkey};

verus! {

/// The token program.
#[derive(Debug, Clone, Copy, PartialEq, Eq, PartialOrd, Ord)]
pub struct Token;

impl StarFrameProgram for Token {
    type InstructionSet = ();

    type AccountDiscriminant = ();

    const ID: Pubkey = [
        6, 221, 246, 225, 215, 101, 161, 147, 217, 203, 225, 70, 206, 235, 121, 172, 28, 180, 133,
        237, 95, 91, 55, 145, 58, 140, 245, 133, 126, 255, 0, 169,
    ];
}

/// The kind of account that describes a token.
#[derive(Debug, Clone, Copy, PartialEq, Eq)]
pub struct MintAccount;

/// An account that holds tokens. It is valid only while the token program
/// owns it.
#[derive(Debug, Clone, Copy, PartialEq, Eq)]
pub struct TokenAccount<'a> {
    pub info: &'a AccountInfo,
}

impl<'a> TokenAccount<'a> {
    /// The number of bytes that a token account holds.
    pub const LEN: usize = 165;
}

/// What the owner requirement of a token account yields for `account`.
pub open spec fn check_token_owner_spec(account: AccountInfo) -> Result<(), ErrorCode> {
    if account.owner@ == Token::ID@ {
        Ok(())
    } else {
        Err(ErrorCode::Validation(ValidationError::OwnerMismatch))
    }
}

impl<'a> SingleAccountSet for TokenAccount<'a> {
    open spec fn info(&self) -> AccountInfo {
        *self.info
    }

    fn account_info(&self) -> (account: &AccountInfo) {
        self.info
    }
}

impl<'a> AccountSetDecode<'a, ()> for TokenAccount<'a> {
    open spec fn arity(arg: &()) -> nat {
        1
    }

    open spec fn is_decoded(accounts: Seq<AccountInfo>, arg: &(), set: Self) -> bool {
        set == (
            TokenAccount { info: &accounts[0] }
        )
    }

    fn required_accounts(arg: &()) -> (count: Option<usize>) {
        Some(1)
    }

    fn decode_accounts(cursor: &mut AccountCursor<'a>, arg: &(), ctx: &Context) -> (set: Result<
        Self,
        ErrorCode,
    >) {
        match cursor.next_account() {
            Ok(info) => Ok(TokenAccount { info }),
            Err(e) => Err(e),
        }
    }
}

impl<'a> AccountSetValidate<()> for TokenAccount<'a> {
    open spec fn validates(&self, arg: &(), ctx: &Context, valid: Result<(), ErrorCode>) -> bool {
        valid == (check_token_owner_spec(*self.info))
    }

    fn validate_accounts(&self, arg: &(), ctx: &Context) -> (valid: Result<(), ErrorCode>) {
        let id = Token::ID;
        if pubkey_eq(&self.info.owner, &id) {
            Ok(())
        } else {
            Err(ErrorCode::Validation(ValidationError::OwnerMismatch))
        }
    }
}

impl<'a> AccountSetCleanup<()> for TokenAccount<'a> {
    open spec fn cleans(&self, arg: &(), ctx: &Context, clean: Result<(), ErrorCode>) -> bool {
        clean == Ok::<(), ErrorCode>(())
    }

    fn cleanup_accounts(&self, arg: &(), ctx: &Context) -> (clean: Result<(), ErrorCode>) {
        Ok(())
    }
}

} // verus!
