//! The associated token account and what it is validated and initialized
//! with.
use vstd::prelude::*;
use vstd::pervasive::unreached;
use core::marker::PhantomData;
use crate::account_info::AccountInfo;
use crate::account_init::{step_view, CanInitAccount, CanInitSeeds, InitStage, InitStep, InitStepView};
use crate::account_set::{
    check_writable, check_writable_spec, AccountCursor, AccountSetCleanup, AccountSetDecode,
    AccountSetValidate, SingleAccountSet,
};
use crate::associated_token::instructions::{lemma_tags_are_unique, Create, CreateCpiAccounts};
use crate::associated_token::{
    associated_token_address, is_associated_token_derivation, AssociatedToken,
};
use crate::context::{rent_shortfall, shortfall_spec, Context, Funder};
use crate::cpi::{cpi, payer_signers, signer_sets, CpiAccountSet, NestedCallView, Transfer};
use crate::data_types::{KeyFor, OptionalKeyFor};
use crate::errors::{ErrorCode, ValidationError};
use crate::program::{Program, StarFrameProgram, System};
use crate::pubkey::{check_derived, check_derived_spec, Derived, Pubkey};
use crate::token::{check_token_owner_spec, MintAccount, Token, TokenAccount};

verus! {

/// The token account of a wallet for a mint, at the address that the
/// associated token program derives from both.
#[derive(Debug, Clone, Copy, PartialEq, Eq)]
pub struct AssociatedTokenAccount<'a>(pub TokenAccount<'a>);

/// What an associated token account is validated against.
#[derive(Debug, Clone, PartialEq, Eq, Copy)]
pub struct ValidateAta<'a> {
    pub wallet: &'a Pubkey,
    pub mint: KeyFor<MintAccount>,
}

/// What an associated token account is initialized with.
#[derive(Debug)]
pub struct InitAta<'a, WalletInfo, MintInfo> where
    WalletInfo: SingleAccountSet,
    MintInfo: SingleAccountSet,
 {
    pub wallet: &'a WalletInfo,
    pub mint: &'a MintInfo,
    pub system_program: Program<'a, System>,
    pub token_program: Program<'a, Token>,
}

impl<'a, WalletInfo, MintInfo> Clone for InitAta<'a, WalletInfo, MintInfo> where
    WalletInfo: SingleAccountSet,
    MintInfo: SingleAccountSet,
 {
    fn clone(&self) -> (copy: Self)
        ensures
            copy == *self,
    {
        InitAta {
            wallet: self.wallet,
            mint: self.mint,
            system_program: self.system_program,
            token_program: self.token_program,
        }
    }
}

impl<'a, WalletInfo, MintInfo> Copy for InitAta<'a, WalletInfo, MintInfo> where
    WalletInfo: SingleAccountSet,
    MintInfo: SingleAccountSet,
 {

}

impl<'a, WalletInfo, MintInfo> InitAta<'a, WalletInfo, MintInfo> where
    WalletInfo: SingleAccountSet,
    MintInfo: SingleAccountSet,
 {
    /// The argument for the account of `wallet` for `mint`, to be created
    /// through the two programs.
    pub fn new(
        wallet: &'a WalletInfo,
        mint: &'a MintInfo,
        system_program: Program<'a, System>,
        token_program: Program<'a, Token>,
    ) -> (init: Self)
        ensures
            init == (InitAta { wallet, mint, system_program, token_program }),
    {
        Self { wallet, mint, system_program, token_program }
    }

    /// The wallet and the mint that the account is validated against.
    pub open spec fn validate_arg(self) -> ValidateAta<'a> {
        ValidateAta {
            wallet: &self.wallet.info().key,
            mint: KeyFor { pubkey: self.mint.info().key, kind: PhantomData },
        }
    }
}

impl<'a, WalletInfo, MintInfo> From<InitAta<'a, WalletInfo, MintInfo>> for ValidateAta<'a> where
    WalletInfo: SingleAccountSet,
    MintInfo: SingleAccountSet,
 {
    fn from(value: InitAta<'a, WalletInfo, MintInfo>) -> (arg: Self)
    {
        Self {
            mint: KeyFor::new(value.mint.account_info().key),
            wallet: &value.wallet.account_info().key,
        }
    }
}

impl<'a, WalletInfo, MintInfo> vstd::std_specs::convert::FromSpecImpl<InitAta<'a, WalletInfo, MintInfo>> for ValidateAta<'a> where
    WalletInfo: SingleAccountSet,
    MintInfo: SingleAccountSet,
 {
    open spec fn obeys_from_spec() -> bool {
        true
    }

    open spec fn from_spec(value: InitAta<'a, WalletInfo, MintInfo>) -> Self {
        value.validate_arg()
    }
}

impl<'a> SingleAccountSet for AssociatedTokenAccount<'a> {
    open spec fn info(&self) -> AccountInfo {
        *self.0.info
    }

    fn account_info(&self) -> (account: &AccountInfo) {
        self.0.info
    }
}

impl<'a> AccountSetDecode<'a, ()> for AssociatedTokenAccount<'a> {
    open spec fn arity(arg: &()) -> nat {
        1
    }

    open spec fn is_decoded(accounts: Seq<AccountInfo>, arg: &(), set: Self) -> bool {
        set == (
            AssociatedTokenAccount(TokenAccount { info: &accounts[0] })
        )
    }

    fn required_accounts(arg: &()) -> (count: Option<usize>) {
        Some(1)
    }

    fn decode_accounts(cursor: &mut AccountCursor<'a>, arg: &(), ctx: &Context) -> (set: Result<
        Self,
        ErrorCode,
    >) {
        match TokenAccount::decode_accounts(cursor, arg, ctx) {
            Ok(inner) => Ok(AssociatedTokenAccount(inner)),
            Err(e) => Err(e),
        }
    }
}

impl<'a> AssociatedTokenAccount<'a> {
    /// Whether `valid` is what comparing the account's address with the
    /// derivation for `arg` yields, whatever the derivation answers.
    pub open spec fn ata_validated(&self, arg: ValidateAta, valid: Result<(), ErrorCode>) -> bool {
        exists|derived: Derived| #[trigger]
            is_associated_token_derivation(arg.wallet@, arg.mint.key(), derived) && valid
                == check_derived_spec(self.0.info.key@, derived)
    }

    /// Validates that the account is the associated token account of the
    /// wallet for the mint. It is accepted only at the address derived from
    /// both; at any other address it is an `AddressMismatch`, and where the
    /// derivation gives no answer the seeds are `InvalidSeeds`.
    pub fn validate_ata(&self, validate_ata: ValidateAta) -> (valid: Result<(), ErrorCode>)
        ensures
            self.ata_validated(validate_ata, valid),
            valid is Ok ==> self.0.info.key@ == associated_token_address(
                validate_ata.wallet@,
                validate_ata.mint.key(),
            ).0,
            valid matches Err(e) ==> e == ErrorCode::Validation(ValidationError::InvalidSeeds) || (e
                == ErrorCode::Validation(ValidationError::AddressMismatch) && self.0.info.key@
                != associated_token_address(validate_ata.wallet@, validate_ata.mint.key()).0),
    {
        let derived = AssociatedToken::find_address_with_bump(
            validate_ata.wallet,
            &validate_ata.mint,
        );
        check_derived(&self.0.info.key, &derived)
    }

    /// The address of the account, marked as that of an associated token
    /// account.
    pub fn key_for(&self) -> (key: KeyFor<AssociatedTokenAccount<'a>>)
        ensures
            key.key() == self.0.info.key@,
    {
        KeyFor::new(self.0.info.key)
    }

    /// The address of the account as one that might have been absent: it is
    /// present.
    pub fn optional_key_for(&self) -> (key: OptionalKeyFor<AssociatedTokenAccount<'a>>)
        ensures
            key.key() == Some(self.0.info.key@),
    {
        OptionalKeyFor::from(self.key_for())
    }
}

impl<'a, 'v> AccountSetValidate<ValidateAta<'v>> for AssociatedTokenAccount<'a> {
    open spec fn validates(
        &self,
        arg: &ValidateAta<'v>,
        ctx: &Context,
        valid: Result<(), ErrorCode>,
    ) -> bool {
        match check_token_owner_spec(*self.0.info) {
            Err(e) => valid == Err::<(), ErrorCode>(e),
            Ok(()) => self.ata_validated(*arg, valid),
        }
    }

    fn validate_accounts(&self, arg: &ValidateAta<'v>, ctx: &Context) -> (valid: Result<
        (),
        ErrorCode,
    >) {
        match self.0.validate_accounts(&(), ctx) {
            Err(e) => Err(e),
            Ok(()) => self.validate_ata(*arg),
        }
    }
}

impl<'a> AccountSetCleanup<()> for AssociatedTokenAccount<'a> {
    open spec fn cleans(&self, arg: &(), ctx: &Context, clean: Result<(), ErrorCode>) -> bool {
        clean == Ok::<(), ErrorCode>(())
    }

    fn cleanup_accounts(&self, arg: &(), ctx: &Context) -> (clean: Result<(), ErrorCode>) {
        Ok(())
    }
}

impl<'a, A> CanInitSeeds<A> for AssociatedTokenAccount<'a> {
    open spec fn seeds_initialized(&self, arg: &A, ctx: &Context, set: Result<(), ErrorCode>) -> bool {
        set == Ok::<(), ErrorCode>(())
    }

    fn init_seeds(&self, arg: &A, ctx: &Context) -> (set: Result<(), ErrorCode>) {
        Ok(())
    }
}

/// The accounts of the nested call that creates `account` for the wallet
/// and the mint of `arg`, paid by `funder`.
pub open spec fn init_keys<'a, WalletInfo, MintInfo>(
    account: AccountInfo,
    arg: InitAta<'a, WalletInfo, MintInfo>,
    funder: Funder,
) -> CreateCpiAccounts where WalletInfo: SingleAccountSet, MintInfo: SingleAccountSet {
    CreateCpiAccounts {
        funder: funder.key,
        token_account: account.key,
        wallet: arg.wallet.info().key,
        mint: arg.mint.info().key,
        system_program: arg.system_program.info.key,
        token_program: arg.token_program.info.key,
    }
}

/// The nested call that creates an associated token account: the program's
/// `Create` on `keys`, signed with the funder's seeds where it has any.
pub open spec fn create_call(keys: CreateCpiAccounts, funder: Funder) -> NestedCallView {
    NestedCallView {
        program_id: AssociatedToken::ID@,
        data: seq![0u8],
        accounts: keys.metas(),
        signers: payer_signers(funder.signer_seeds),
    }
}

/// What the last step yields: seeds for the account are `InvalidSeeds`,
/// since its address is fixed by its wallet and mint; an account that may
/// not be changed is `NotWritable`; otherwise the nested call is asked for.
pub open spec fn creation_spec(
    account: AccountInfo,
    keys: CreateCpiAccounts,
    funder: Funder,
    seeds_given: bool,
) -> Result<InitStepView, ErrorCode> {
    if seeds_given {
        Err(ErrorCode::Validation(ValidationError::InvalidSeeds))
    } else {
        match check_writable_spec(account) {
            Err(e) => Err(e),
            Ok(()) => Ok(InitStepView::Invoke(create_call(keys, funder))),
        }
    }
}

/// The next step of the initialization of `account`, given what the
/// derivation of its address answered and what the minimum balance of a
/// token account is.
///
/// At the start, an account that the token program owns already is, where
/// asked for, only validated against the derivation. Else a funder that
/// cannot create accounts is asked for what the balance lacks to the
/// minimum, if it lacks anything. Then the account is created.
pub open spec fn plan_init_spec(
    if_needed: bool,
    stage: InitStage,
    account: AccountInfo,
    keys: CreateCpiAccounts,
    funder: Funder,
    seeds_given: bool,
    derived: Derived,
    minimum: Result<u64, ErrorCode>,
) -> Result<InitStepView, ErrorCode> {
    match stage {
        InitStage::Funded => creation_spec(account, keys, funder, seeds_given),
        InitStage::Start => if if_needed && account.owner@ == Token::ID@ {
            match check_derived_spec(account.key@, derived) {
                Err(e) => Err(e),
                Ok(()) => Ok(InitStepView::Done),
            }
        } else if !funder.can_create_account {
            match minimum {
                Err(e) => Err(e),
                Ok(minimum) => if shortfall_spec(minimum, account.lamports) > 0 {
                    Ok(
                        InitStepView::Fund(
                            Transfer {
                                from: funder.key,
                                to: account.key,
                                lamports: shortfall_spec(minimum, account.lamports),
                            },
                        ),
                    )
                } else {
                    creation_spec(account, keys, funder, seeds_given)
                },
            }
        } else {
            creation_spec(account, keys, funder, seeds_given)
        },
    }
}

fn create_step(account: &AccountInfo, keys: &CreateCpiAccounts, funder: &Funder, seeds_given: bool) -> (step:
    Result<InitStep, ErrorCode>)
    ensures
        step_view(step) == creation_spec(*account, *keys, *funder, seeds_given),
{
    if seeds_given {
        return Err(ErrorCode::Validation(ValidationError::InvalidSeeds));
    }
    match check_writable(account) {
        Ok(()) => {},
        Err(e) => {
            return Err(e);
        },
    }
    let signers = signer_sets(&funder.signer_seeds);
    proof {
        lemma_tags_are_unique();
    }
    // an instruction without a trailing value always has a payload
    match cpi::<AssociatedToken, Create, CreateCpiAccounts>(&Create, keys) {
        Some(unsigned) => {
            assert(unsigned@.data =~= seq![0u8]);
            Ok(InitStep::Invoke(unsigned.signed(signers)))
        },
        None => unreached(),
    }
}

/// Decides the next step of the initialization of `account` from what the
/// derivation of its address answered and from the minimum balance.
pub fn plan_init(
    if_needed: bool,
    stage: InitStage,
    account: &AccountInfo,
    keys: &CreateCpiAccounts,
    funder: &Funder,
    seeds_given: bool,
    derived: &Derived,
    minimum: Result<u64, ErrorCode>,
) -> (step: Result<InitStep, ErrorCode>)
    ensures
        step_view(step) == plan_init_spec(
            if_needed,
            stage,
            *account,
            *keys,
            *funder,
            seeds_given,
            *derived,
            minimum,
        ),
{
    match stage {
        InitStage::Funded => create_step(account, keys, funder, seeds_given),
        InitStage::Start => {
            let token = Token::ID;
            if if_needed && account.is_owned_by(&token) {
                match check_derived(&account.key, derived) {
                    Err(e) => Err(e),
                    Ok(()) => Ok(InitStep::Done),
                }
            } else if !funder.can_create_account {
                match minimum {
                    Err(e) => Err(e),
                    Ok(minimum) => {
                        let lamports = rent_shortfall(minimum, account.lamports);
                        if lamports > 0 {
                            Ok(
                                InitStep::Fund(
                                    Transfer { from: funder.key, to: account.key, lamports },
                                ),
                            )
                        } else {
                            create_step(account, keys, funder, seeds_given)
                        }
                    },
                }
            } else {
                create_step(account, keys, funder, seeds_given)
            }
        },
    }
}

/// Idempotent initialization: an account that the token program owns and
/// that lives at the derived address needs nothing when it is initialized
/// if needed. No balance is moved and no call is made, so the account is as
/// it was, and every further initialization of it finds the same.
pub proof fn lemma_init_if_needed_is_idempotent(
    account: AccountInfo,
    keys: CreateCpiAccounts,
    funder: Funder,
    seeds_given: bool,
    address: Pubkey,
    bump: u8,
    minimum: Result<u64, ErrorCode>,
)
    requires
        account.owner@ == Token::ID@,
        account.key@ == address@,
    ensures
        plan_init_spec(
            true,
            InitStage::Start,
            account,
            keys,
            funder,
            seeds_given,
            Some((address, bump)),
            minimum,
        ) == Ok::<InitStepView, ErrorCode>(InitStepView::Done),
{
}

/// Funding moves what the balance lacks to the minimum and nothing else: a
/// transfer is asked for only where the balance is below the minimum, and
/// then for exactly the difference, which is positive.
pub proof fn lemma_funding_is_the_shortfall(
    if_needed: bool,
    stage: InitStage,
    account: AccountInfo,
    keys: CreateCpiAccounts,
    funder: Funder,
    seeds_given: bool,
    derived: Derived,
    minimum: Result<u64, ErrorCode>,
)
    ensures
        plan_init_spec(if_needed, stage, account, keys, funder, seeds_given, derived, minimum)
            matches Ok(InitStepView::Fund(transfer)) ==> minimum matches Ok(least) && account.lamports
            < least && transfer.lamports == least - account.lamports && transfer.lamports > 0
            && transfer.from == funder.key && transfer.to == account.key,
{
}

impl<'a, 'b, 'f, WalletInfo, MintInfo> CanInitAccount<
    (InitAta<'b, WalletInfo, MintInfo>, &'f Funder),
> for AssociatedTokenAccount<'a> where WalletInfo: SingleAccountSet, MintInfo: SingleAccountSet {
    open spec fn initializes(
        &self,
        if_needed: bool,
        stage: InitStage,
        arg: &(InitAta<'b, WalletInfo, MintInfo>, &'f Funder),
        seeds_given: bool,
        ctx: &Context,
        step: Result<InitStepView, ErrorCode>,
    ) -> bool {
        exists|derived: Derived| #[trigger]
            is_associated_token_derivation(
                arg.0.wallet.info().key@,
                arg.0.mint.info().key@,
                derived,
            ) && step == plan_init_spec(
                if_needed,
                stage,
                *self.0.info,
                init_keys(*self.0.info, arg.0, *arg.1),
                *arg.1,
                seeds_given,
                derived,
                ctx.minimum_balance_spec(TokenAccount::LEN),
            )
    }

    fn init_account<const IF_NEEDED: bool>(
        &self,
        stage: InitStage,
        arg: (InitAta<'b, WalletInfo, MintInfo>, &'f Funder),
        account_seeds: Option<&[&[u8]]>,
        ctx: &Context,
    ) -> (step: Result<InitStep, ErrorCode>) {
        let (init_ata, funder) = arg;
        let account = self.0.info;
        let token = Token::ID;
        // the address is derived only where the account has to be validated
        let derived: Derived = match stage {
            InitStage::Start if IF_NEEDED && account.is_owned_by(&token) => {
                let validate = ValidateAta::from(init_ata);
                AssociatedToken::find_address_with_bump(validate.wallet, &validate.mint)
            },
            _ => None,
        };
        let minimum = ctx.minimum_balance(TokenAccount::LEN);
        let keys = CreateCpiAccounts {
            funder: funder.key,
            token_account: account.key,
            wallet: init_ata.wallet.account_info().key,
            mint: init_ata.mint.account_info().key,
            system_program: init_ata.system_program.info.key,
            token_program: init_ata.token_program.info.key,
        };
        let step = plan_init(
            IF_NEEDED,
            stage,
            account,
            &keys,
            funder,
            account_seeds.is_some(),
            &derived,
            minimum,
        );
        assert(is_associated_token_derivation(
            arg.0.wallet.info().key@,
            arg.0.mint.info().key@,
            derived,
        ));
        step
    }
}

/// An account that the token program owns already is, when initialized if
/// needed, never funded and never created: whatever the derivation
/// answers, the step is `Done`, and then the account lives at the derived
/// address; or the account is rejected, as a mismatch only where it lives
/// elsewhere.
pub proof fn lemma_owned_account_is_only_validated<'a, 'b, 'f, WalletInfo, MintInfo>(
    account: AssociatedTokenAccount<'a>,
    arg: (InitAta<'b, WalletInfo, MintInfo>, &'f Funder),
    seeds_given: bool,
    ctx: &Context,
    step: Result<InitStepView, ErrorCode>,
) where WalletInfo: SingleAccountSet, MintInfo: SingleAccountSet
    requires
        account.initializes(true, InitStage::Start, &arg, seeds_given, ctx, step),
        account.0.info.owner@ == Token::ID@,
    ensures
        step matches Ok(asked) ==> asked is Done && account.0.info.key@
            == associated_token_address(arg.0.wallet.info().key@, arg.0.mint.info().key@).0,
        step matches Err(e) ==> e == ErrorCode::Validation(ValidationError::InvalidSeeds) || (e
            == ErrorCode::Validation(ValidationError::AddressMismatch) && account.0.info.key@
            != associated_token_address(arg.0.wallet.info().key@, arg.0.mint.info().key@).0),
{
}

/// An initialization asks for a transfer only at its start and only of a
/// funder that cannot create accounts, and then for what the account's
/// balance lacks to the minimum balance of a token account: a positive
/// amount, from the funder to the account.
pub proof fn lemma_init_funds_a_positive_amount<'a, 'b, 'f, WalletInfo, MintInfo>(
    account: AssociatedTokenAccount<'a>,
    if_needed: bool,
    stage: InitStage,
    arg: (InitAta<'b, WalletInfo, MintInfo>, &'f Funder),
    seeds_given: bool,
    ctx: &Context,
    step: Result<InitStepView, ErrorCode>,
) where WalletInfo: SingleAccountSet, MintInfo: SingleAccountSet
    requires
        account.initializes(if_needed, stage, &arg, seeds_given, ctx, step),
    ensures
        step matches Ok(InitStepView::Fund(transfer)) ==> transfer.lamports > 0 && stage
            == InitStage::Start && !arg.1.can_create_account && transfer.from == arg.1.key
            && transfer.to == account.0.info.key && ctx.minimum_balance_spec(TokenAccount::LEN)
            == Ok::<u64, ErrorCode>((account.0.info.lamports + transfer.lamports) as u64),
{
}

impl<'a, 'b, WalletInfo, MintInfo> CanInitAccount<
    InitAta<'b, WalletInfo, MintInfo>,
> for AssociatedTokenAccount<'a> where WalletInfo: SingleAccountSet, MintInfo: SingleAccountSet {
    open spec fn initializes(
        &self,
        if_needed: bool,
        stage: InitStage,
        arg: &InitAta<'b, WalletInfo, MintInfo>,
        seeds_given: bool,
        ctx: &Context,
        step: Result<InitStepView, ErrorCode>,
    ) -> bool {
        match ctx.funder {
            None => step == Err::<InitStepView, ErrorCode>(ErrorCode::EmptyFunderCache),
            Some(funder) => self.initializes(
                if_needed,
                stage,
                &(*arg, &funder),
                seeds_given,
                ctx,
                step,
            ),
        }
    }

    fn init_account<const IF_NEEDED: bool>(
        &self,
        stage: InitStage,
        arg: InitAta<'b, WalletInfo, MintInfo>,
        account_seeds: Option<&[&[u8]]>,
        ctx: &Context,
    ) -> (step: Result<InitStep, ErrorCode>) {
        match ctx.get_funder() {
            Err(e) => Err(e),
            Ok(funder) => self.init_account::<IF_NEEDED>(stage, (arg, funder), account_seeds, ctx),
        }
    }
}

} // verus!
