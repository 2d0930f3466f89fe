//! The instructions of the associated token program and their accounts.
use vstd::prelude::*;
use core::marker::PhantomData;
use crate::account_info::{AccountInfo, AccountMeta};
use crate::account_set::{
    and_then, arity_error, check_signer_spec, check_writable_spec, AccountCursor,
    AccountSetCleanup, AccountSetDecode, AccountSetValidate, Mut, Signer,
};
use crate::context::Context;
use crate::cpi::CpiAccountSet;
use crate::data::{decode_data, encode_data, split_discriminant};
use crate::errors::{DecodeError, ErrorCode};
use crate::instruction::{
    decodes, dispatched, runs_decoded, Instruction, InstructionArgs, InstructionDiscriminant,
    InstructionSet, IxArgs, Processed, StarFrameInstruction,
};
use crate::program::{program_at_spec, Program, StarFrameProgram, System};
use crate::pubkey::Pubkey;
use crate::token::Token;

verus! {

/// The instructions that the associated token program takes, each under its
/// own tag.
#[derive(Copy, Debug, Clone, PartialEq, Eq)]
pub enum AssociatedTokenInstructionSet {
    Create(Create),
    CreateIdempotent(CreateIdempotent),
    RecoverNested(RecoverNested),
}

/// Creates the associated token account of a wallet for a mint. Fails where
/// the account exists.
#[derive(Copy, Clone, Debug, Eq, PartialEq)]
pub struct Create;

/// Creates the associated token account of a wallet for a mint unless it
/// exists. Its accounts are those of [`Create`].
#[derive(Copy, Clone, Debug, Eq, PartialEq)]
pub struct CreateIdempotent;

/// Moves the tokens of an associated token account that is owned by another
/// associated token account to the wallet's own.
#[derive(Copy, Clone, Debug, Eq, PartialEq)]
pub struct RecoverNested;

impl InstructionDiscriminant<AssociatedTokenInstructionSet> for Create {
    const DISCRIMINANT: u8 = 0;

    proof fn lemma_tag_in_set() {
    }
}

impl InstructionDiscriminant<AssociatedTokenInstructionSet> for CreateIdempotent {
    const DISCRIMINANT: u8 = 1;

    proof fn lemma_tag_in_set() {
    }
}

impl InstructionDiscriminant<AssociatedTokenInstructionSet> for RecoverNested {
    const DISCRIMINANT: u8 = 2;

    proof fn lemma_tag_in_set() {
    }
}

impl InstructionArgs for Create {
    type DecodeArg<'a> = ();

    type ValidateArg<'a> = ();

    type RunArg<'a> = ();

    type CleanupArg<'a> = ();

    open spec fn split_spec<'a>(r: &'a Self) -> IxArgs<'a, Self> {
        IxArgs { decode: (), validate: (), run: (), cleanup: () }
    }

    fn split_to_args<'a>(r: &'a Self) -> (args: IxArgs<'a, Self>) {
        IxArgs { decode: (), validate: (), run: (), cleanup: () }
    }
}

impl InstructionArgs for CreateIdempotent {
    type DecodeArg<'a> = ();

    type ValidateArg<'a> = ();

    type RunArg<'a> = ();

    type CleanupArg<'a> = ();

    open spec fn split_spec<'a>(r: &'a Self) -> IxArgs<'a, Self> {
        IxArgs { decode: (), validate: (), run: (), cleanup: () }
    }

    fn split_to_args<'a>(r: &'a Self) -> (args: IxArgs<'a, Self>) {
        IxArgs { decode: (), validate: (), run: (), cleanup: () }
    }
}

impl InstructionArgs for RecoverNested {
    type DecodeArg<'a> = ();

    type ValidateArg<'a> = ();

    type RunArg<'a> = ();

    type CleanupArg<'a> = ();

    open spec fn split_spec<'a>(r: &'a Self) -> IxArgs<'a, Self> {
        IxArgs { decode: (), validate: (), run: (), cleanup: () }
    }

    fn split_to_args<'a>(r: &'a Self) -> (args: IxArgs<'a, Self>) {
        IxArgs { decode: (), validate: (), run: (), cleanup: () }
    }
}

impl StarFrameInstruction for Create {
    type ReturnType = ();

    type Trailing = ();

    type Accounts<'decode> = CreateAccounts<'decode>;

    open spec fn header_size() -> nat {
        0
    }

    open spec fn header(&self) -> Seq<u8> {
        Seq::empty()
    }

    open spec fn trailing(&self) -> () {
        ()
    }

    proof fn lemma_header_size(&self) {
    }

    open spec fn processed<'a>(
        accounts: Self::Accounts<'a>,
        run_arg: (),
        ctx: Context,
        done: Processed<Self::Accounts<'a>, ()>,
    ) -> bool {
        done == (Processed { accounts, ctx, outcome: Ok::<(), ErrorCode>(()) })
    }

    fn to_bytes(&self) -> (bytes: Option<Vec<u8>>) {
        let header: [u8; 0] = [];
        assert(header@ =~= Seq::<u8>::empty());
        encode_data::<0, ()>(&header, &())
    }

    fn from_bytes(data: &[u8]) -> (decoded: Result<Self, ErrorCode>) {
        match decode_data::<0, ()>(data) {
            Ok(value) => {
                assert(value.header@ =~= Seq::<u8>::empty());
                Ok(Create)
            },
            Err(e) => Err(e),
        }
    }

    fn process(accounts: &mut Self::Accounts<'_>, run_arg: (), ctx: &mut Context) -> (returned:
        Result<(), ErrorCode>) {
        Ok(())
    }
}

impl StarFrameInstruction for CreateIdempotent {
    type ReturnType = ();

    type Trailing = ();

    type Accounts<'decode> = CreateAccounts<'decode>;

    open spec fn header_size() -> nat {
        0
    }

    open spec fn header(&self) -> Seq<u8> {
        Seq::empty()
    }

    open spec fn trailing(&self) -> () {
        ()
    }

    proof fn lemma_header_size(&self) {
    }

    open spec fn processed<'a>(
        accounts: Self::Accounts<'a>,
        run_arg: (),
        ctx: Context,
        done: Processed<Self::Accounts<'a>, ()>,
    ) -> bool {
        done == (Processed { accounts, ctx, outcome: Ok::<(), ErrorCode>(()) })
    }

    fn to_bytes(&self) -> (bytes: Option<Vec<u8>>) {
        let header: [u8; 0] = [];
        assert(header@ =~= Seq::<u8>::empty());
        encode_data::<0, ()>(&header, &())
    }

    fn from_bytes(data: &[u8]) -> (decoded: Result<Self, ErrorCode>) {
        match decode_data::<0, ()>(data) {
            Ok(value) => {
                assert(value.header@ =~= Seq::<u8>::empty());
                Ok(CreateIdempotent)
            },
            Err(e) => Err(e),
        }
    }

    fn process(accounts: &mut Self::Accounts<'_>, run_arg: (), ctx: &mut Context) -> (returned:
        Result<(), ErrorCode>) {
        Ok(())
    }
}

impl StarFrameInstruction for RecoverNested {
    type ReturnType = ();

    type Trailing = ();

    type Accounts<'decode> = RecoverNestedAccounts<'decode>;

    open spec fn header_size() -> nat {
        0
    }

    open spec fn header(&self) -> Seq<u8> {
        Seq::empty()
    }

    open spec fn trailing(&self) -> () {
        ()
    }

    proof fn lemma_header_size(&self) {
    }

    open spec fn processed<'a>(
        accounts: Self::Accounts<'a>,
        run_arg: (),
        ctx: Context,
        done: Processed<Self::Accounts<'a>, ()>,
    ) -> bool {
        done == (Processed { accounts, ctx, outcome: Ok::<(), ErrorCode>(()) })
    }

    fn to_bytes(&self) -> (bytes: Option<Vec<u8>>) {
        let header: [u8; 0] = [];
        assert(header@ =~= Seq::<u8>::empty());
        encode_data::<0, ()>(&header, &())
    }

    fn from_bytes(data: &[u8]) -> (decoded: Result<Self, ErrorCode>) {
        match decode_data::<0, ()>(data) {
            Ok(value) => {
                assert(value.header@ =~= Seq::<u8>::empty());
                Ok(RecoverNested)
            },
            Err(e) => Err(e),
        }
    }

    fn process(accounts: &mut Self::Accounts<'_>, run_arg: (), ctx: &mut Context) -> (returned:
        Result<(), ErrorCode>) {
        Ok(())
    }
}

impl InstructionSet for AssociatedTokenInstructionSet {
    type Discriminant = u8;

    open spec fn has_tag(tag: u8) -> bool {
        tag == 0 || tag == 1 || tag == 2
    }

    open spec fn dispatches(
        ctx: Context,
        accounts: Seq<AccountInfo>,
        data: Seq<u8>,
        result: Result<Seq<u8>, ErrorCode>,
    ) -> bool {
        let rest = data.subrange(1, data.len() as int);
        if data[0] == 0 {
            <Create as Instruction>::processes(ctx, accounts, rest, result)
        } else if data[0] == 1 {
            <CreateIdempotent as Instruction>::processes(ctx, accounts, rest, result)
        } else {
            <RecoverNested as Instruction>::processes(ctx, accounts, rest, result)
        }
    }

    fn dispatch(ctx: Context, accounts: &[AccountInfo], instruction_data: &[u8]) -> (result:
        Result<Vec<u8>, ErrorCode>) {
        match split_discriminant(instruction_data) {
            Err(e) => Err(e),
            Ok((tag, rest)) => {
                if tag == 0 {
                    <Create as Instruction>::process_from_raw(ctx, accounts, rest)
                } else if tag == 1 {
                    <CreateIdempotent as Instruction>::process_from_raw(ctx, accounts, rest)
                } else if tag == 2 {
                    <RecoverNested as Instruction>::process_from_raw(ctx, accounts, rest)
                } else {
                    Err(ErrorCode::UnknownDiscriminant(tag))
                }
            },
        }
    }
}

/// No two instructions of the set have the same tag, and the tags of the
/// set are exactly those of its instructions: 0, 1 and 2.
pub proof fn lemma_tags_are_unique()
    ensures
        <Create as InstructionDiscriminant<AssociatedTokenInstructionSet>>::DISCRIMINANT == 0,
        <CreateIdempotent as InstructionDiscriminant<AssociatedTokenInstructionSet>>::DISCRIMINANT
            == 1,
        <RecoverNested as InstructionDiscriminant<AssociatedTokenInstructionSet>>::DISCRIMINANT
            == 2,
        <Create as InstructionDiscriminant<AssociatedTokenInstructionSet>>::DISCRIMINANT
            != <CreateIdempotent as InstructionDiscriminant<
            AssociatedTokenInstructionSet,
        >>::DISCRIMINANT,
        <Create as InstructionDiscriminant<AssociatedTokenInstructionSet>>::DISCRIMINANT
            != <RecoverNested as InstructionDiscriminant<
            AssociatedTokenInstructionSet,
        >>::DISCRIMINANT,
        <CreateIdempotent as InstructionDiscriminant<AssociatedTokenInstructionSet>>::DISCRIMINANT
            != <RecoverNested as InstructionDiscriminant<
            AssociatedTokenInstructionSet,
        >>::DISCRIMINANT,
        forall|tag: u8|
            AssociatedTokenInstructionSet::has_tag(tag) <==> (tag == <Create as InstructionDiscriminant<
                AssociatedTokenInstructionSet,
            >>::DISCRIMINANT || tag == <CreateIdempotent as InstructionDiscriminant<
                AssociatedTokenInstructionSet,
            >>::DISCRIMINANT || tag == <RecoverNested as InstructionDiscriminant<
                AssociatedTokenInstructionSet,
            >>::DISCRIMINANT),
{
}

/// The accounts of [`Create`] and of [`CreateIdempotent`].
#[derive(Debug, Clone)]
pub struct CreateAccounts<'a> {
    pub funder: Mut<Signer<&'a AccountInfo>>,
    pub token_account: Mut<&'a AccountInfo>,
    pub wallet: &'a AccountInfo,
    pub mint: &'a AccountInfo,
    pub system_program: Program<'a, System>,
    pub token_program: Program<'a, Token>,
}

impl<'a> AccountSetDecode<'a, ()> for CreateAccounts<'a> {
    open spec fn arity(arg: &()) -> nat {
        6
    }

    open spec fn is_decoded(accounts: Seq<AccountInfo>, arg: &(), set: Self) -> bool {
        set == (
            CreateAccounts {
                funder: Mut(Signer(&accounts[0])),
                token_account: Mut(&accounts[1]),
                wallet: &accounts[2],
                mint: &accounts[3],
                system_program: Program { info: &accounts[4], program: PhantomData },
                token_program: Program { info: &accounts[5], program: PhantomData },
            }
        )
    }

    fn required_accounts(arg: &()) -> (count: Option<usize>) {
        Some(6)
    }

    fn decode_accounts(cursor: &mut AccountCursor<'a>, arg: &(), ctx: &Context) -> (set: Result<
        Self,
        ErrorCode,
    >) {
        match cursor.require(6) {
            Ok(()) => {},
            Err(e) => {
                return Err(e);
            },
        }
        let funder = <Mut<Signer<&'a AccountInfo>>>::decode_accounts(cursor, arg, ctx)?;
        let token_account = <Mut<&'a AccountInfo>>::decode_accounts(cursor, arg, ctx)?;
        let wallet = <&'a AccountInfo>::decode_accounts(cursor, arg, ctx)?;
        let mint = <&'a AccountInfo>::decode_accounts(cursor, arg, ctx)?;
        let system_program = <Program<'a, System>>::decode_accounts(cursor, arg, ctx)?;
        let token_program = <Program<'a, Token>>::decode_accounts(cursor, arg, ctx)?;
        Ok(CreateAccounts { funder, token_account, wallet, mint, system_program, token_program })
    }
}

impl<'a> AccountSetValidate<()> for CreateAccounts<'a> {
    open spec fn validates(&self, arg: &(), ctx: &Context, valid: Result<(), ErrorCode>) -> bool {
        exists|funder: Result<(), ErrorCode>| #[trigger]
            self.funder.validates(arg, ctx, funder) && match funder {
                Err(e) => valid == Err::<(), ErrorCode>(e),
                Ok(()) => exists|token_account: Result<(), ErrorCode>| #[trigger]
                    self.token_account.validates(arg, ctx, token_account) && match token_account {
                        Err(e) => valid == Err::<(), ErrorCode>(e),
                        Ok(()) => exists|system_program: Result<(), ErrorCode>| #[trigger]
                            self.system_program.validates(arg, ctx, system_program)
                                && match system_program {
                                Err(e) => valid == Err::<(), ErrorCode>(e),
                                Ok(()) => self.token_program.validates(arg, ctx, valid),
                            },
                    },
            }
    }

    fn validate_accounts(&self, arg: &(), ctx: &Context) -> (valid: Result<(), ErrorCode>) {
        let funder = self.funder.validate_accounts(arg, ctx);
        if funder.is_err() {
            return funder;
        }
        let token_account = self.token_account.validate_accounts(arg, ctx);
        if token_account.is_err() {
            return token_account;
        }
        self.wallet.validate_accounts(arg, ctx)?;
        self.mint.validate_accounts(arg, ctx)?;
        let system_program = self.system_program.validate_accounts(arg, ctx);
        if system_program.is_err() {
            return system_program;
        }
        self.token_program.validate_accounts(arg, ctx)
    }
}

/// What the validation of the accounts of [`Create`] yields: the first of
/// these that fails, in this order: the funder signed and is writable, the
/// token account is writable, and the two programs are at their addresses.
pub open spec fn create_accounts_valid(set: CreateAccounts<'_>) -> Result<(), ErrorCode> {
    and_then(
        check_signer_spec(*set.funder.0.0),
        and_then(
            check_writable_spec(*set.funder.0.0),
            and_then(
                check_writable_spec(*set.token_account.0),
                and_then(
                    program_at_spec::<System>(*set.system_program.info),
                    program_at_spec::<Token>(*set.token_program.info),
                ),
            ),
        ),
    )
}

/// The validation of the accounts of [`Create`] has one result only, which
/// `create_accounts_valid` spells out.
pub proof fn lemma_create_accounts_validation(
    set: CreateAccounts<'_>,
    ctx: &Context,
    valid: Result<(), ErrorCode>,
)
    ensures
        set.validates(&(), ctx, valid) <==> valid == create_accounts_valid(set),
{
    let arg = ();
    if valid == create_accounts_valid(set) {
        let inner = Ok::<(), ErrorCode>(());
        assert(set.funder.0.0.validates(&arg, ctx, inner));
        let signer = check_signer_spec(*set.funder.0.0);
        assert(set.funder.0.validates(&arg, ctx, signer));
        let funder = and_then(signer, check_writable_spec(*set.funder.0.0));
        assert(set.funder.validates(&arg, ctx, funder));
        assert(set.token_account.0.validates(&arg, ctx, inner));
        let token_account = check_writable_spec(*set.token_account.0);
        assert(set.token_account.validates(&arg, ctx, token_account));
        let system_program = program_at_spec::<System>(*set.system_program.info);
        assert(set.system_program.validates(&arg, ctx, system_program));
    }
}

/// What a call of [`Create`] or of [`CreateIdempotent`] yields for the
/// payload after the tag and the accounts of the call: a payload with any
/// byte is malformed; fewer than six accounts are a shortfall; the first
/// account that fails validation ends the call; otherwise the call
/// succeeds and publishes nothing.
pub open spec fn create_result(accounts: Seq<AccountInfo>, data: Seq<u8>) -> Result<
    Seq<u8>,
    ErrorCode,
> {
    if data.len() > 0 {
        Err(ErrorCode::Decode(DecodeError::MalformedTrailing))
    } else if accounts.len() < 6 {
        Err(arity_error(6, accounts.len()))
    } else {
        match create_accounts_valid(create_accounts_of(accounts)) {
            Err(e) => Err(e),
            Ok(()) => Ok(Seq::empty()),
        }
    }
}

/// The accounts of [`Create`] as they are read from the front of
/// `accounts`.
pub open spec fn create_accounts_of<'a>(accounts: Seq<AccountInfo>) -> CreateAccounts<'a> {
    CreateAccounts {
        funder: Mut(Signer(&accounts[0])),
        token_account: Mut(&accounts[1]),
        wallet: &accounts[2],
        mint: &accounts[3],
        system_program: Program { info: &accounts[4], program: PhantomData },
        token_program: Program { info: &accounts[5], program: PhantomData },
    }
}

/// A call of [`Create`] has one result only, which `create_result` spells
/// out.
pub proof fn lemma_create_runs(
    ctx: Context,
    accounts: Seq<AccountInfo>,
    data: Seq<u8>,
    result: Result<Seq<u8>, ErrorCode>,
)
    ensures
        <Create as Instruction>::processes(ctx, accounts, data, result) <==> result
            == create_result(accounts, data),
{
    let arg = ();
    let args = Create::split_spec(&Create);
    if data.len() == 0 && accounts.len() >= 6 {
        let set = create_accounts_of(accounts);
        assert(CreateAccounts::is_decoded(accounts.subrange(0, 6), &arg, set));
        assert forall|valid: Result<(), ErrorCode>|
            set.validates(&arg, &ctx, valid) <==> valid == create_accounts_valid(set) by {
            lemma_create_accounts_validation(set, &ctx, valid);
        }
        if result == create_result(accounts, data) {
            let valid = create_accounts_valid(set);
            assert(set.validates(&args.validate, &ctx, valid));
            if valid is Ok {
                let done = Processed { accounts: set, ctx, outcome: Ok::<(), ErrorCode>(()) };
                assert(Create::processed(set, args.run, ctx, done));
                let clean = Ok::<(), ErrorCode>(());
                assert(done.accounts.cleans(&args.cleanup, &done.ctx, clean));
            }
        }
    }
    if result == create_result(accounts, data) {
        let decoded = if data.len() == 0 {
            Ok::<Create, ErrorCode>(Create)
        } else {
            Err::<Create, ErrorCode>(ErrorCode::Decode(DecodeError::MalformedTrailing))
        };
        if data.len() == 0 {
            assert(data =~= Create.header());
        }
        assert(decodes::<Create>(data, decoded) && runs_decoded::<Create>(
            decoded,
            ctx,
            accounts,
            result,
        ));
    }
}

/// A call of [`CreateIdempotent`] has one result only, which
/// `create_result` spells out.
pub proof fn lemma_create_idempotent_runs(
    ctx: Context,
    accounts: Seq<AccountInfo>,
    data: Seq<u8>,
    result: Result<Seq<u8>, ErrorCode>,
)
    ensures
        <CreateIdempotent as Instruction>::processes(ctx, accounts, data, result) <==> result
            == create_result(accounts, data),
{
    let arg = ();
    let args = CreateIdempotent::split_spec(&CreateIdempotent);
    if data.len() == 0 && accounts.len() >= 6 {
        let set = create_accounts_of(accounts);
        assert(CreateAccounts::is_decoded(accounts.subrange(0, 6), &arg, set));
        assert forall|valid: Result<(), ErrorCode>|
            set.validates(&arg, &ctx, valid) <==> valid == create_accounts_valid(set) by {
            lemma_create_accounts_validation(set, &ctx, valid);
        }
        if result == create_result(accounts, data) {
            let valid = create_accounts_valid(set);
            assert(set.validates(&args.validate, &ctx, valid));
            if valid is Ok {
                let done = Processed { accounts: set, ctx, outcome: Ok::<(), ErrorCode>(()) };
                assert(CreateIdempotent::processed(set, args.run, ctx, done));
                let clean = Ok::<(), ErrorCode>(());
                assert(done.accounts.cleans(&args.cleanup, &done.ctx, clean));
            }
        }
    }
    if result == create_result(accounts, data) {
        let decoded = if data.len() == 0 {
            Ok::<CreateIdempotent, ErrorCode>(CreateIdempotent)
        } else {
            Err::<CreateIdempotent, ErrorCode>(ErrorCode::Decode(DecodeError::MalformedTrailing))
        };
        if data.len() == 0 {
            assert(data =~= CreateIdempotent.header());
        }
        assert(decodes::<CreateIdempotent>(data, decoded) && runs_decoded::<CreateIdempotent>(
            decoded,
            ctx,
            accounts,
            result,
        ));
    }
}

impl<'a> AccountSetCleanup<()> for CreateAccounts<'a> {
    open spec fn cleans(&self, arg: &(), ctx: &Context, clean: Result<(), ErrorCode>) -> bool {
        clean == Ok::<(), ErrorCode>(())
    }

    fn cleanup_accounts(&self, arg: &(), ctx: &Context) -> (clean: Result<(), ErrorCode>) {
        Ok(())
    }
}

/// The accounts of a nested call of [`Create`], by address.
#[derive(Debug, Clone, Copy, PartialEq, Eq)]
pub struct CreateCpiAccounts {
    pub funder: Pubkey,
    pub token_account: Pubkey,
    pub wallet: Pubkey,
    pub mint: Pubkey,
    pub system_program: Pubkey,
    pub token_program: Pubkey,
}

impl CpiAccountSet for CreateCpiAccounts {
    open spec fn metas(&self) -> Seq<AccountMeta> {
        seq![
            AccountMeta { pubkey: self.funder, is_writable: true, is_signer: true },
            AccountMeta { pubkey: self.token_account, is_writable: true, is_signer: false },
            AccountMeta { pubkey: self.wallet, is_writable: false, is_signer: false },
            AccountMeta { pubkey: self.mint, is_writable: false, is_signer: false },
            AccountMeta { pubkey: self.system_program, is_writable: false, is_signer: false },
            AccountMeta { pubkey: self.token_program, is_writable: false, is_signer: false },
        ]
    }

    fn to_account_metas(&self) -> (metas: Vec<AccountMeta>) {
        let mut metas: Vec<AccountMeta> = Vec::new();
        metas.push(AccountMeta::writable_signer(&self.funder));
        metas.push(AccountMeta::writable(&self.token_account));
        metas.push(AccountMeta::readonly(&self.wallet));
        metas.push(AccountMeta::readonly(&self.mint));
        metas.push(AccountMeta::readonly(&self.system_program));
        metas.push(AccountMeta::readonly(&self.token_program));
        metas
    }
}

/// Whether `accounts` are handed over as `metas` announce them: each at
/// the announced address, with the announced rights.
pub open spec fn accounts_match_metas(accounts: Seq<AccountInfo>, metas: Seq<AccountMeta>) -> bool {
    accounts.len() >= metas.len() && forall|i: int|
        0 <= i < metas.len() ==> (#[trigger] accounts[i]).key == metas[i].pubkey
            && accounts[i].is_signer == metas[i].is_signer && accounts[i].is_writable
            == metas[i].is_writable
}

/// The accounts of a nested call of [`Create`] stand in the order in which
/// the instruction declares them and carry the rights it demands: where the
/// two programs are named at their addresses, accounts handed over as the
/// call announces them pass the instruction's validation.
pub proof fn lemma_create_call_passes_validation(
    keys: CreateCpiAccounts,
    accounts: Seq<AccountInfo>,
)
    requires
        keys.system_program@ == System::ID@,
        keys.token_program@ == Token::ID@,
        accounts_match_metas(accounts, keys.metas()),
    ensures
        create_accounts_valid(create_accounts_of(accounts)) == Ok::<(), ErrorCode>(()),
{
}

/// The accounts of [`RecoverNested`].
#[derive(Debug, Clone)]
pub struct RecoverNestedAccounts<'a> {
    pub nested_ata: Mut<&'a AccountInfo>,
    pub nested_mint: &'a AccountInfo,
    pub destination_ata: Mut<&'a AccountInfo>,
    pub owner_ata: Mut<&'a AccountInfo>,
    pub owner_mint: &'a AccountInfo,
    pub wallet: Mut<Signer<&'a AccountInfo>>,
    pub token_program: Program<'a, Token>,
}

impl<'a> AccountSetDecode<'a, ()> for RecoverNestedAccounts<'a> {
    open spec fn arity(arg: &()) -> nat {
        7
    }

    open spec fn is_decoded(accounts: Seq<AccountInfo>, arg: &(), set: Self) -> bool {
        set == (
            RecoverNestedAccounts {
                nested_ata: Mut(&accounts[0]),
                nested_mint: &accounts[1],
                destination_ata: Mut(&accounts[2]),
                owner_ata: Mut(&accounts[3]),
                owner_mint: &accounts[4],
                wallet: Mut(Signer(&accounts[5])),
                token_program: Program { info: &accounts[6], program: PhantomData },
            }
        )
    }

    fn required_accounts(arg: &()) -> (count: Option<usize>) {
        Some(7)
    }

    fn decode_accounts(cursor: &mut AccountCursor<'a>, arg: &(), ctx: &Context) -> (set: Result<
        Self,
        ErrorCode,
    >) {
        match cursor.require(7) {
            Ok(()) => {},
            Err(e) => {
                return Err(e);
            },
        }
        let nested_ata = <Mut<&'a AccountInfo>>::decode_accounts(cursor, arg, ctx)?;
        let nested_mint = <&'a AccountInfo>::decode_accounts(cursor, arg, ctx)?;
        let destination_ata = <Mut<&'a AccountInfo>>::decode_accounts(cursor, arg, ctx)?;
        let owner_ata = <Mut<&'a AccountInfo>>::decode_accounts(cursor, arg, ctx)?;
        let owner_mint = <&'a AccountInfo>::decode_accounts(cursor, arg, ctx)?;
        let wallet = <Mut<Signer<&'a AccountInfo>>>::decode_accounts(cursor, arg, ctx)?;
        let token_program = <Program<'a, Token>>::decode_accounts(cursor, arg, ctx)?;
        Ok(
            RecoverNestedAccounts {
                nested_ata,
                nested_mint,
                destination_ata,
                owner_ata,
                owner_mint,
                wallet,
                token_program,
            },
        )
    }
}

impl<'a> AccountSetValidate<()> for RecoverNestedAccounts<'a> {
    open spec fn validates(&self, arg: &(), ctx: &Context, valid: Result<(), ErrorCode>) -> bool {
        exists|nested_ata: Result<(), ErrorCode>| #[trigger]
            self.nested_ata.validates(arg, ctx, nested_ata) && match nested_ata {
                Err(e) => valid == Err::<(), ErrorCode>(e),
                Ok(()) => exists|destination_ata: Result<(), ErrorCode>| #[trigger]
                    self.destination_ata.validates(arg, ctx, destination_ata)
                        && match destination_ata {
                        Err(e) => valid == Err::<(), ErrorCode>(e),
                        Ok(()) => exists|owner_ata: Result<(), ErrorCode>| #[trigger]
                            self.owner_ata.validates(arg, ctx, owner_ata) && match owner_ata {
                                Err(e) => valid == Err::<(), ErrorCode>(e),
                                Ok(()) => exists|wallet: Result<(), ErrorCode>| #[trigger]
                                    self.wallet.validates(arg, ctx, wallet) && match wallet {
                                        Err(e) => valid == Err::<(), ErrorCode>(e),
                                        Ok(()) => self.token_program.validates(arg, ctx, valid),
                                    },
                            },
                    },
            }
    }

    fn validate_accounts(&self, arg: &(), ctx: &Context) -> (valid: Result<(), ErrorCode>) {
        let nested_ata = self.nested_ata.validate_accounts(arg, ctx);
        if nested_ata.is_err() {
            return nested_ata;
        }
        self.nested_mint.validate_accounts(arg, ctx)?;
        let destination_ata = self.destination_ata.validate_accounts(arg, ctx);
        if destination_ata.is_err() {
            return destination_ata;
        }
        let owner_ata = self.owner_ata.validate_accounts(arg, ctx);
        if owner_ata.is_err() {
            return owner_ata;
        }
        self.owner_mint.validate_accounts(arg, ctx)?;
        let wallet = self.wallet.validate_accounts(arg, ctx);
        if wallet.is_err() {
            return wallet;
        }
        self.token_program.validate_accounts(arg, ctx)
    }
}

/// What the validation of the accounts of [`RecoverNested`] yields: the
/// first of these that fails, in this order: the nested account, the
/// destination and the owner's account are writable, the wallet signed and
/// is writable, and the token program is at its address.
pub open spec fn recover_nested_accounts_valid(set: RecoverNestedAccounts<'_>) -> Result<
    (),
    ErrorCode,
> {
    and_then(
        check_writable_spec(*set.nested_ata.0),
        and_then(
            check_writable_spec(*set.destination_ata.0),
            and_then(
                check_writable_spec(*set.owner_ata.0),
                and_then(
                    check_signer_spec(*set.wallet.0.0),
                    and_then(
                        check_writable_spec(*set.wallet.0.0),
                        program_at_spec::<Token>(*set.token_program.info),
                    ),
                ),
            ),
        ),
    )
}

/// The validation of the accounts of [`RecoverNested`] has one result only,
/// which `recover_nested_accounts_valid` spells out.
pub proof fn lemma_recover_nested_accounts_validation(
    set: RecoverNestedAccounts<'_>,
    ctx: &Context,
    valid: Result<(), ErrorCode>,
)
    ensures
        set.validates(&(), ctx, valid) <==> valid == recover_nested_accounts_valid(set),
{
    let arg = ();
    if valid == recover_nested_accounts_valid(set) {
        let inner = Ok::<(), ErrorCode>(());
        assert(set.nested_ata.0.validates(&arg, ctx, inner));
        assert(set.nested_ata.validates(&arg, ctx, check_writable_spec(*set.nested_ata.0)));
        assert(set.destination_ata.0.validates(&arg, ctx, inner));
        assert(set.destination_ata.validates(
            &arg,
            ctx,
            check_writable_spec(*set.destination_ata.0),
        ));
        assert(set.owner_ata.0.validates(&arg, ctx, inner));
        assert(set.owner_ata.validates(&arg, ctx, check_writable_spec(*set.owner_ata.0)));
        assert(set.wallet.0.0.validates(&arg, ctx, inner));
        let signer = check_signer_spec(*set.wallet.0.0);
        assert(set.wallet.0.validates(&arg, ctx, signer));
        assert(set.wallet.validates(
            &arg,
            ctx,
            and_then(signer, check_writable_spec(*set.wallet.0.0)),
        ));
    }
}

/// What a call of [`RecoverNested`] yields for the payload after the tag
/// and the accounts of the call: a payload with any byte is malformed;
/// fewer than seven accounts are a shortfall; the first account that fails
/// validation ends the call; otherwise the call succeeds and publishes
/// nothing.
pub open spec fn recover_nested_result(accounts: Seq<AccountInfo>, data: Seq<u8>) -> Result<
    Seq<u8>,
    ErrorCode,
> {
    if data.len() > 0 {
        Err(ErrorCode::Decode(DecodeError::MalformedTrailing))
    } else if accounts.len() < 7 {
        Err(arity_error(7, accounts.len()))
    } else {
        match recover_nested_accounts_valid(recover_nested_accounts_of(accounts)) {
            Err(e) => Err(e),
            Ok(()) => Ok(Seq::empty()),
        }
    }
}

/// The accounts of [`RecoverNested`] as they are read from the front of
/// `accounts`.
pub open spec fn recover_nested_accounts_of<'a>(
    accounts: Seq<AccountInfo>,
) -> RecoverNestedAccounts<'a> {
    RecoverNestedAccounts {
        nested_ata: Mut(&accounts[0]),
        nested_mint: &accounts[1],
        destination_ata: Mut(&accounts[2]),
        owner_ata: Mut(&accounts[3]),
        owner_mint: &accounts[4],
        wallet: Mut(Signer(&accounts[5])),
        token_program: Program { info: &accounts[6], program: PhantomData },
    }
}

/// A call of [`RecoverNested`] has one result only, which
/// `recover_nested_result` spells out.
pub proof fn lemma_recover_nested_runs(
    ctx: Context,
    accounts: Seq<AccountInfo>,
    data: Seq<u8>,
    result: Result<Seq<u8>, ErrorCode>,
)
    ensures
        <RecoverNested as Instruction>::processes(ctx, accounts, data, result) <==> result
            == recover_nested_result(accounts, data),
{
    let arg = ();
    let args = RecoverNested::split_spec(&RecoverNested);
    if data.len() == 0 && accounts.len() >= 7 {
        let set = recover_nested_accounts_of(accounts);
        assert(RecoverNestedAccounts::is_decoded(accounts.subrange(0, 7), &arg, set));
        assert forall|valid: Result<(), ErrorCode>|
            set.validates(&arg, &ctx, valid) <==> valid == recover_nested_accounts_valid(
                set,
            ) by {
            lemma_recover_nested_accounts_validation(set, &ctx, valid);
        }
        if result == recover_nested_result(accounts, data) {
            let valid = recover_nested_accounts_valid(set);
            assert(set.validates(&args.validate, &ctx, valid));
            if valid is Ok {
                let done = Processed { accounts: set, ctx, outcome: Ok::<(), ErrorCode>(()) };
                assert(RecoverNested::processed(set, args.run, ctx, done));
                let clean = Ok::<(), ErrorCode>(());
                assert(done.accounts.cleans(&args.cleanup, &done.ctx, clean));
            }
        }
    }
    if result == recover_nested_result(accounts, data) {
        let decoded = if data.len() == 0 {
            Ok::<RecoverNested, ErrorCode>(RecoverNested)
        } else {
            Err::<RecoverNested, ErrorCode>(ErrorCode::Decode(DecodeError::MalformedTrailing))
        };
        if data.len() == 0 {
            assert(data =~= RecoverNested.header());
        }
        assert(decodes::<RecoverNested>(data, decoded) && runs_decoded::<RecoverNested>(
            decoded,
            ctx,
            accounts,
            result,
        ));
    }
}

/// What the program yields for a payload and the accounts of a call: the
/// tag at the front of the payload picks the instruction, which runs on the
/// rest; a payload without a tag is too short, and a tag of no instruction
/// is unknown.
pub open spec fn dispatch_result(accounts: Seq<AccountInfo>, data: Seq<u8>) -> Result<
    Seq<u8>,
    ErrorCode,
> {
    if data.len() == 0 {
        Err(ErrorCode::Decode(DecodeError::TooShort { expected: 1, actual: 0 }))
    } else if data[0] == 0 || data[0] == 1 {
        create_result(accounts, data.subrange(1, data.len() as int))
    } else if data[0] == 2 {
        recover_nested_result(accounts, data.subrange(1, data.len() as int))
    } else {
        Err(ErrorCode::UnknownDiscriminant(data[0]))
    }
}

/// A call of the program has one result only, which `dispatch_result`
/// spells out.
pub proof fn lemma_dispatch_result(
    ctx: Context,
    accounts: Seq<AccountInfo>,
    data: Seq<u8>,
    result: Result<Seq<u8>, ErrorCode>,
)
    ensures
        dispatched::<AssociatedTokenInstructionSet>(ctx, accounts, data, result) <==> result
            == dispatch_result(accounts, data),
{
    if data.len() > 0 {
        let rest = data.subrange(1, data.len() as int);
        lemma_create_runs(ctx, accounts, rest, result);
        lemma_create_idempotent_runs(ctx, accounts, rest, result);
        lemma_recover_nested_runs(ctx, accounts, rest, result);
    }
}

impl<'a> AccountSetCleanup<()> for RecoverNestedAccounts<'a> {
    open spec fn cleans(&self, arg: &(), ctx: &Context, clean: Result<(), ErrorCode>) -> bool {
        clean == Ok::<(), ErrorCode>(())
    }

    fn cleanup_accounts(&self, arg: &(), ctx: &Context) -> (clean: Result<(), ErrorCode>) {
        Ok(())
    }
}

} // verus!
