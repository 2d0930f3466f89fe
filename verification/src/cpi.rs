//! Nested calls: what a program hands to another program, and what it gets
//! back.
use vstd::prelude::*;
use vstd::bytes::{spec_u32_to_le_bytes, spec_u64_to_le_bytes, u32_to_le_bytes, u64_to_le_bytes};
use crate::account_info::AccountMeta;
use crate::context::Context;
use crate::data::tag_payload;
use crate::errors::ErrorCode;
use crate::instruction::{encoded, InstructionDiscriminant, StarFrameInstruction};
use crate::program::{StarFrameProgram, System};
use crate::pubkey::Pubkey;

verus! {

/// One nested call: the callee, the tagged payload, the accounts in the
/// order the callee declares them, and the seeds of each address that the
/// caller signs for.
#[derive(Clone, Debug, PartialEq, Eq)]
pub struct NestedCall {
    /// The program that is called.
    pub program_id: Pubkey,
    /// The tag followed by the instruction's payload.
    pub data: Vec<u8>,
    /// The accounts of the call, in the callee's order.
    pub accounts: Vec<AccountMeta>,
    /// One set of seeds for each derived address that signs.
    pub signers: Vec<Vec<Vec<u8>>>,
}

/// A nested call as plain values.
pub struct NestedCallView {
    pub program_id: Seq<u8>,
    pub data: Seq<u8>,
    pub accounts: Seq<AccountMeta>,
    pub signers: Seq<Seq<Seq<u8>>>,
}

impl View for NestedCall {
    type V = NestedCallView;

    open spec fn view(&self) -> NestedCallView {
        NestedCallView {
            program_id: self.program_id@,
            data: self.data@,
            accounts: self.accounts@,
            signers: self.signers.deep_view(),
        }
    }
}

/// The accounts of a nested call, as the caller holds them.
pub trait CpiAccountSet {
    /// The accounts in the callee's order, each with what the callee may do
    /// with it.
    spec fn metas(&self) -> Seq<AccountMeta>;

    /// Lists the accounts in the callee's order.
    fn to_account_metas(&self) -> (metas: Vec<AccountMeta>)
        ensures
            metas@ == self.metas(),
    ;
}

/// A balance to move from one account to another.
#[derive(Clone, Copy, Debug, PartialEq, Eq)]
pub struct Transfer {
    /// The account that pays.
    pub from: Pubkey,
    /// The account that receives.
    pub to: Pubkey,
    /// How much is moved.
    pub lamports: u64,
}

/// The sets of seeds that sign for a payer: its own set where it has one.
pub open spec fn payer_signers(seeds: Option<Vec<Vec<u8>>>) -> Seq<Seq<Seq<u8>>> {
    match seeds {
        Some(seeds) => seq![seeds.deep_view()],
        None => Seq::empty(),
    }
}

/// Lists the sets of seeds that sign for a payer: its own set where it has
/// one, byte for byte.
pub fn signer_sets(seeds: &Option<Vec<Vec<u8>>>) -> (signers: Vec<Vec<Vec<u8>>>)
    ensures
        signers.deep_view() == payer_signers(*seeds),
{
    let mut signers: Vec<Vec<Vec<u8>>> = Vec::new();
    match seeds {
        Some(seeds) => {
            let copy = seeds.clone();
            signers.push(copy);
            assert(signers.deep_view() =~= seq![seeds.deep_view()]);
        },
        None => {
            assert(signers.deep_view() =~= Seq::<Seq<Seq<u8>>>::empty());
        },
    }
    signers
}

/// The system program's number for its transfer instruction.
pub const SYSTEM_TRANSFER: u32 = 2;

/// The call of the system program that carries out `transfer`: the number of
/// the transfer instruction and the amount, both in little-endian order;
/// the payer, writable and signing, then the receiver, writable; signed with
/// the payer's seeds where it has any.
pub open spec fn transfer_call(transfer: Transfer, seeds: Option<Vec<Vec<u8>>>) -> NestedCallView {
    NestedCallView {
        program_id: System::ID@,
        data: spec_u32_to_le_bytes(SYSTEM_TRANSFER) + spec_u64_to_le_bytes(transfer.lamports),
        accounts: seq![
            AccountMeta { pubkey: transfer.from, is_writable: true, is_signer: true },
            AccountMeta { pubkey: transfer.to, is_writable: true, is_signer: false },
        ],
        signers: payer_signers(seeds),
    }
}

impl Transfer {
    /// Builds the call of the system program that moves the balance, signed
    /// with `seeds` where the payer is an address of the program's own.
    pub fn to_call(&self, seeds: &Option<Vec<Vec<u8>>>) -> (call: NestedCall)
        ensures
            call@ == transfer_call(*self, *seeds),
    {
        let mut data = u32_to_le_bytes(SYSTEM_TRANSFER);
        let mut amount = u64_to_le_bytes(self.lamports);
        data.append(&mut amount);
        let mut accounts: Vec<AccountMeta> = Vec::new();
        accounts.push(AccountMeta::writable_signer(&self.from));
        accounts.push(AccountMeta::writable(&self.to));
        let call = NestedCall {
            program_id: System::ID,
            data,
            accounts,
            signers: signer_sets(seeds),
        };
        assert(call@.accounts =~= transfer_call(*self, *seeds).accounts);
        call
    }
}

impl NestedCall {
    /// Signs the call with every set of seeds that the context has
    /// gathered, in their order.
    pub fn signed_by(self, ctx: &Context) -> (call: NestedCall)
        ensures
            call@ == (NestedCallView { signers: ctx.signer_seeds.deep_view(), ..self@ }),
    {
        let seeds = ctx.signer_seeds.clone();
        self.signed(seeds)
    }

    /// Adds the seeds with which the caller signs the call.
    pub fn signed(self, seeds: Vec<Vec<Vec<u8>>>) -> (call: NestedCall)
        ensures
            call@ == (NestedCallView { signers: seeds.deep_view(), ..self@ }),
    {
        NestedCall {
            program_id: self.program_id,
            data: self.data,
            accounts: self.accounts,
            signers: seeds,
        }
    }
}

/// Builds the call of the instruction `ix` of the program `P` on `accounts`.
/// The payload is the instruction's tag in the program's set followed by the
/// instruction's own bytes; the accounts stand in the order in which the set
/// of accounts lists them; nothing signs yet. There is no call where the
/// instruction's trailing value has no encoding.
pub fn cpi<P, I, A>(ix: &I, accounts: &A) -> (call: Option<NestedCall>) where
    P: StarFrameProgram,
    I: StarFrameInstruction + InstructionDiscriminant<P::InstructionSet>,
    A: CpiAccountSet,

    ensures
        match call {
            Some(call) => encoded(ix) matches Some(payload) && call@ == (NestedCallView {
                program_id: P::ID@,
                data: seq![I::DISCRIMINANT] + payload,
                accounts: accounts.metas(),
                signers: Seq::empty(),
            }),
            None => encoded(ix) is None,
        },
{
    match ix.to_bytes() {
        None => None,
        Some(payload) => {
            let call = NestedCall {
                program_id: P::ID,
                data: tag_payload(I::DISCRIMINANT, payload.as_slice()),
                accounts: accounts.to_account_metas(),
                signers: Vec::new(),
            };
            assert(call.signers.deep_view() =~= Seq::<Seq<Seq<u8>>>::empty());
            Some(call)
        },
    }
}

/// What a finished nested call means for the caller: success, or the
/// callee's failure with its code unchanged.
pub fn invocation_result(code: u64) -> (result: Result<(), ErrorCode>)
    ensures
        result == if code == 0 {
            Ok::<(), ErrorCode>(())
        } else {
            Err::<(), ErrorCode>(ErrorCode::Invocation(code))
        },
{
    if code == 0 {
        Ok(())
    } else {
        Err(ErrorCode::Invocation(code))
    }
}

} // verus!
