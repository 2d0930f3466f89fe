//! Programs, and the accounts that hold them.
use vstd::prelude::*;
use core::marker::PhantomData;
use crate::account_info::AccountInfo;
use crate::account_set::{
    AccountCursor, AccountSetCleanup, AccountSetDecode, AccountSetValidate, SingleAccountSet,
};
use crate::context::Context;
use crate::errors::{ErrorCode, ValidationError};
use crate::instruction::InstructionSet;
use crate::pubkey::{pubkey_eq, Pubkey};

verus! {

/// A program: where it lives and which instructions it takes.
pub trait StarFrameProgram {
    /// The instructions that the program takes.
    type InstructionSet: InstructionSet;

    /// The type of the tags of the program's accounts.
    type AccountDiscriminant;

    /// The program's address.
    const ID: Pubkey;
}

/// The system program, which creates accounts and moves balances.
#[derive(Debug, Clone, Copy, PartialEq, Eq, PartialOrd, Ord)]
pub struct System;

impl StarFrameProgram for System {
    type InstructionSet = ();

    type AccountDiscriminant = ();

    const ID: Pubkey = [
        0, 0, 0, 0, 0, 0, 0, 0, 0, 0, 0, 0, 0, 0, 0, 0, 0, 0, 0, 0, 0, 0, 0, 0, 0, 0, 0, 0, 0, 0, 0, 0,
    ];
}

/// The account of the program `P`. It is valid only at the program's own
/// address.
#[derive(Debug, PartialEq, Eq)]
pub struct Program<'a, P> {
    pub info: &'a AccountInfo,
    pub program: PhantomData<P>,
}

impl<'a, P> Clone for Program<'a, P> {
    fn clone(&self) -> (copy: Self)
        ensures
            copy == *self,
    {
        Program { info: self.info, program: PhantomData }
    }
}

impl<'a, P> Copy for Program<'a, P> {

}

/// What the address requirement of the program `P` yields for `account`.
pub open spec fn program_at_spec<P: StarFrameProgram>(
    account: AccountInfo,
) -> Result<(), ErrorCode> {
    if account.key@ == P::ID@ {
        Ok(())
    } else {
        Err(ErrorCode::Validation(ValidationError::AddressMismatch))
    }
}

impl<'a, P: StarFrameProgram> SingleAccountSet for Program<'a, P> {
    open spec fn info(&self) -> AccountInfo {
        *self.info
    }

    fn account_info(&self) -> (account: &AccountInfo) {
        self.info
    }
}

impl<'a, P: StarFrameProgram> AccountSetDecode<'a, ()> for Program<'a, P> {
    open spec fn arity(arg: &()) -> nat {
        1
    }

    open spec fn is_decoded(accounts: Seq<AccountInfo>, arg: &(), set: Self) -> bool {
        set == (
            Program { info: &accounts[0], program: PhantomData::<P> }
        )
    }

    fn required_accounts(arg: &()) -> (count: Option<usize>) {
        Some(1)
    }

    fn decode_accounts(cursor: &mut AccountCursor<'a>, arg: &(), ctx: &Context) -> (set: Result<
        Self,
        ErrorCode,
    >) {
        match cursor.next_account() {
            Ok(info) => Ok(Program { info, program: PhantomData }),
            Err(e) => Err(e),
        }
    }
}

impl<'a, P: StarFrameProgram> AccountSetValidate<()> for Program<'a, P> {
    open spec fn validates(&self, arg: &(), ctx: &Context, valid: Result<(), ErrorCode>) -> bool {
        valid == program_at_spec::<P>(*self.info)
    }

    fn validate_accounts(&self, arg: &(), ctx: &Context) -> (valid: Result<(), ErrorCode>) {
        let id = P::ID;
        if pubkey_eq(&self.info.key, &id) {
            Ok(())
        } else {
            Err(ErrorCode::Validation(ValidationError::AddressMismatch))
        }
    }
}

impl<'a, P: StarFrameProgram> AccountSetCleanup<()> for Program<'a, P> {
    open spec fn cleans(&self, arg: &(), ctx: &Context, clean: Result<(), ErrorCode>) -> bool {
        clean == Ok::<(), ErrorCode>(())
    }

    fn cleanup_accounts(&self, arg: &(), ctx: &Context) -> (clean: Result<(), ErrorCode>) {
        Ok(())
    }
}

} // verus!
