//! Account sets: declarations of the accounts an instruction needs, decoded
//! from a shared forward-only cursor, validated, and cleaned up.
use vstd::prelude::*;
use crate::account_info::AccountInfo;
use crate::context::Context;
use crate::errors::{ErrorCode, ValidationError};

verus! {

/// The accounts of one call and how many of them have been taken. Every
/// declaration of a call reads from the same cursor, which only moves
/// forward.
pub struct AccountCursor<'a> {
    accounts: &'a [AccountInfo],
    position: usize,
}

impl<'a> AccountCursor<'a> {
    #[verifier::type_invariant]
    spec fn in_bounds(self) -> bool {
        self.position <= self.accounts@.len()
    }

    /// All accounts of the call, taken or not.
    pub closed spec fn accounts(self) -> Seq<AccountInfo> {
        self.accounts@
    }

    /// How many accounts have been taken.
    pub closed spec fn position(self) -> nat {
        self.position as nat
    }

    /// How many accounts are left to take.
    pub open spec fn remaining(self) -> nat {
        (self.accounts().len() - self.position()) as nat
    }

    /// The next `count` accounts.
    pub open spec fn window(self, count: nat) -> Seq<AccountInfo> {
        self.accounts().subrange(self.position() as int, (self.position() + count) as int)
    }

    /// A cursor before the first of `accounts`.
    pub fn new(accounts: &'a [AccountInfo]) -> (cursor: Self)
        ensures
            cursor.accounts() == accounts@,
            cursor.position() == 0,
    {
        AccountCursor { accounts, position: 0 }
    }

    /// How many accounts are left to take.
    pub fn remaining_len(&self) -> (left: usize)
        ensures
            left == self.remaining(),
            self.position() <= self.accounts().len(),
    {
        proof {
            use_type_invariant(self);
        }
        self.accounts.len() - self.position
    }

    /// Checks that `count` accounts are left, without taking any.
    pub fn require(&self, count: usize) -> (enough: Result<(), ErrorCode>)
        ensures
            self.position() <= self.accounts().len(),
            enough == if self.remaining() >= count {
                Ok::<(), ErrorCode>(())
            } else {
                Err::<(), ErrorCode>(
                    ErrorCode::AccountArity { expected: count, got: self.remaining() as usize },
                )
            },
    {
        let left = self.remaining_len();
        if left >= count {
            Ok(())
        } else {
            Err(ErrorCode::AccountArity { expected: count, got: left })
        }
    }

    /// Takes the next account. Where none is left the cursor stays where it
    /// is and the shortfall is reported.
    pub fn next_account(&mut self) -> (taken: Result<&'a AccountInfo, ErrorCode>)
        ensures
            final(self).accounts() == old(self).accounts(),
            old(self).position() <= old(self).accounts().len(),
            match taken {
                Ok(account) => old(self).remaining() >= 1 && final(self).position() == old(
                    self,
                ).position() + 1 && *account == old(self).accounts()[old(self).position() as int],
                Err(e) => old(self).remaining() == 0 && final(self).position() == old(
                    self,
                ).position() && e == (ErrorCode::AccountArity { expected: 1, got: 0 }),
            },
    {
        proof {
            use_type_invariant(&*self);
        }
        if self.position < self.accounts.len() {
            let account = &self.accounts[self.position];
            self.position = self.position + 1;
            Ok(account)
        } else {
            Err(ErrorCode::AccountArity { expected: 1, got: 0 })
        }
    }
}

/// The error for a declaration that takes `expected` accounts where only
/// `got` are left. A count beyond the machine's range is reported as the
/// largest count.
pub open spec fn arity_error(expected: nat, got: nat) -> ErrorCode {
    ErrorCode::AccountArity {
        expected: if expected <= usize::MAX {
            expected as usize
        } else {
            usize::MAX
        },
        got: got as usize,
    }
}

/// A declaration that can be read from the cursor, given the argument `A`.
pub trait AccountSetDecode<'a, A>: Sized {
    /// How many accounts the declaration takes for `arg`.
    spec fn arity(arg: &A) -> nat;

    /// Whether `set` is what `accounts`, exactly `arity(arg)` of them,
    /// decode to.
    spec fn is_decoded(accounts: Seq<AccountInfo>, arg: &A, set: Self) -> bool;

    /// How many accounts the declaration takes for `arg`; `None` where they
    /// are more than can be counted.
    fn required_accounts(arg: &A) -> (count: Option<usize>)
        ensures
            match count {
                Some(count) => count == Self::arity(arg),
                None => Self::arity(arg) > usize::MAX,
            },
    ;

    /// Takes the declaration's accounts from the cursor, children in the
    /// order of their fields. Where fewer accounts are left than the
    /// declaration takes, the shortfall is reported and the cursor has not
    /// moved.
    fn decode_accounts(cursor: &mut AccountCursor<'a>, arg: &A, ctx: &Context) -> (set: Result<
        Self,
        ErrorCode,
    >)
        ensures
            final(cursor).accounts() == old(cursor).accounts(),
            old(cursor).position() <= old(cursor).accounts().len(),
            match set {
                Ok(set) => old(cursor).remaining() >= Self::arity(arg) && final(cursor).position()
                    == old(cursor).position() + Self::arity(arg) && Self::is_decoded(
                    old(cursor).window(Self::arity(arg)),
                    arg,
                    set,
                ),
                Err(e) => old(cursor).remaining() < Self::arity(arg) && final(cursor).position()
                    == old(cursor).position() && e == arity_error(
                    Self::arity(arg),
                    old(cursor).remaining(),
                ),
            },
    ;
}

/// The result of a check that runs only where the checks before it passed.
pub open spec fn and_then(first: Result<(), ErrorCode>, second: Result<(), ErrorCode>) -> Result<
    (),
    ErrorCode,
> {
    match first {
        Err(e) => Err(e),
        Ok(()) => second,
    }
}

/// A declaration whose constraints can be checked, given the argument `A`.
pub trait AccountSetValidate<A> {
    /// Whether `valid` is what the validation of the set yields: `Ok`, or
    /// the first constraint that the set fails.
    spec fn validates(&self, arg: &A, ctx: &Context, valid: Result<(), ErrorCode>) -> bool;

    /// Checks the set's constraints in order and stops at the first that
    /// fails. Nothing is changed.
    fn validate_accounts(&self, arg: &A, ctx: &Context) -> (valid: Result<(), ErrorCode>)
        ensures
            self.validates(arg, ctx, valid),
    ;
}

/// A declaration with post-conditions to meet after the instruction ran.
pub trait AccountSetCleanup<A> {
    /// Whether `clean` is what the cleanup of the set yields: `Ok`, or the
    /// first post-condition that the set fails.
    spec fn cleans(&self, arg: &A, ctx: &Context, clean: Result<(), ErrorCode>) -> bool;

    /// Checks the set's post-conditions in order and stops at the first
    /// that fails.
    fn cleanup_accounts(&self, arg: &A, ctx: &Context) -> (clean: Result<(), ErrorCode>)
        ensures
            self.cleans(arg, ctx, clean),
    ;
}

/// A declaration that stands for exactly one account.
pub trait SingleAccountSet {
    /// The account that the declaration stands for.
    spec fn info(&self) -> AccountInfo;

    /// The account that the declaration stands for.
    fn account_info(&self) -> (account: &AccountInfo)
        ensures
            *account == self.info(),
    ;
}

impl<'a> SingleAccountSet for &'a AccountInfo {
    open spec fn info(&self) -> AccountInfo {
        **self
    }

    fn account_info(&self) -> (account: &AccountInfo) {
        *self
    }
}

impl<'a> AccountSetDecode<'a, ()> for &'a AccountInfo {
    open spec fn arity(arg: &()) -> nat {
        1
    }

    open spec fn is_decoded(accounts: Seq<AccountInfo>, arg: &(), set: Self) -> bool {
        *set == accounts[0]
    }

    fn required_accounts(arg: &()) -> (count: Option<usize>) {
        Some(1)
    }

    fn decode_accounts(cursor: &mut AccountCursor<'a>, arg: &(), ctx: &Context) -> (set: Result<
        Self,
        ErrorCode,
    >) {
        cursor.next_account()
    }
}

impl<'a> AccountSetValidate<()> for &'a AccountInfo {
    open spec fn validates(&self, arg: &(), ctx: &Context, valid: Result<(), ErrorCode>) -> bool {
        valid == Ok::<(), ErrorCode>(())
    }

    fn validate_accounts(&self, arg: &(), ctx: &Context) -> (valid: Result<(), ErrorCode>) {
        Ok(())
    }
}

impl<'a> AccountSetCleanup<()> for &'a AccountInfo {
    open spec fn cleans(&self, arg: &(), ctx: &Context, clean: Result<(), ErrorCode>) -> bool {
        clean == Ok::<(), ErrorCode>(())
    }

    fn cleanup_accounts(&self, arg: &(), ctx: &Context) -> (clean: Result<(), ErrorCode>) {
        Ok(())
    }
}

/// Marks the inner declaration's account as one that must have signed.
#[derive(Clone, Copy, Debug, PartialEq, Eq)]
pub struct Signer<T>(pub T);

/// Marks the inner declaration's account as one that the call may change.
#[derive(Clone, Copy, Debug, PartialEq, Eq)]
pub struct Mut<T>(pub T);

/// What the signer requirement yields for `account`.
pub open spec fn check_signer_spec(account: AccountInfo) -> Result<(), ErrorCode> {
    if account.is_signer {
        Ok(())
    } else {
        Err(ErrorCode::Validation(ValidationError::MissingSigner))
    }
}

/// What the writable requirement yields for `account`.
pub open spec fn check_writable_spec(account: AccountInfo) -> Result<(), ErrorCode> {
    if account.is_writable {
        Ok(())
    } else {
        Err(ErrorCode::Validation(ValidationError::NotWritable))
    }
}

/// `MissingSigner` unless the account signed.
pub fn check_signer(account: &AccountInfo) -> (checked: Result<(), ErrorCode>)
    ensures
        checked == check_signer_spec(*account),
{
    if account.is_signer {
        Ok(())
    } else {
        Err(ErrorCode::Validation(ValidationError::MissingSigner))
    }
}

/// `NotWritable` unless the call may change the account.
pub fn check_writable(account: &AccountInfo) -> (checked: Result<(), ErrorCode>)
    ensures
        checked == check_writable_spec(*account),
{
    if account.is_writable {
        Ok(())
    } else {
        Err(ErrorCode::Validation(ValidationError::NotWritable))
    }
}

impl<T: SingleAccountSet> SingleAccountSet for Signer<T> {
    open spec fn info(&self) -> AccountInfo {
        self.0.info()
    }

    fn account_info(&self) -> (account: &AccountInfo) {
        self.0.account_info()
    }
}

impl<T: SingleAccountSet> SingleAccountSet for Mut<T> {
    open spec fn info(&self) -> AccountInfo {
        self.0.info()
    }

    fn account_info(&self) -> (account: &AccountInfo) {
        self.0.account_info()
    }
}

impl<'a, A, T: AccountSetDecode<'a, A>> AccountSetDecode<'a, A> for Signer<T> {
    open spec fn arity(arg: &A) -> nat {
        T::arity(arg)
    }

    open spec fn is_decoded(accounts: Seq<AccountInfo>, arg: &A, set: Self) -> bool {
        T::is_decoded(accounts, arg, set.0)
    }

    fn required_accounts(arg: &A) -> (count: Option<usize>) {
        T::required_accounts(arg)
    }

    fn decode_accounts(cursor: &mut AccountCursor<'a>, arg: &A, ctx: &Context) -> (set: Result<
        Self,
        ErrorCode,
    >) {
        match T::decode_accounts(cursor, arg, ctx) {
            Ok(inner) => Ok(Signer(inner)),
            Err(e) => Err(e),
        }
    }
}

impl<'a, A, T: AccountSetDecode<'a, A>> AccountSetDecode<'a, A> for Mut<T> {
    open spec fn arity(arg: &A) -> nat {
        T::arity(arg)
    }

    open spec fn is_decoded(accounts: Seq<AccountInfo>, arg: &A, set: Self) -> bool {
        T::is_decoded(accounts, arg, set.0)
    }

    fn required_accounts(arg: &A) -> (count: Option<usize>) {
        T::required_accounts(arg)
    }

    fn decode_accounts(cursor: &mut AccountCursor<'a>, arg: &A, ctx: &Context) -> (set: Result<
        Self,
        ErrorCode,
    >) {
        match T::decode_accounts(cursor, arg, ctx) {
            Ok(inner) => Ok(Mut(inner)),
            Err(e) => Err(e),
        }
    }
}

impl<A, T: AccountSetValidate<A> + SingleAccountSet> AccountSetValidate<A> for Signer<T> {
    open spec fn validates(&self, arg: &A, ctx: &Context, valid: Result<(), ErrorCode>) -> bool {
        exists|inner: Result<(), ErrorCode>| #[trigger]
            self.0.validates(arg, ctx, inner) && valid == and_then(
                inner,
                check_signer_spec(self.0.info()),
            )
    }

    fn validate_accounts(&self, arg: &A, ctx: &Context) -> (valid: Result<(), ErrorCode>) {
        match self.0.validate_accounts(arg, ctx) {
            Err(e) => Err(e),
            Ok(()) => check_signer(self.0.account_info()),
        }
    }
}

impl<A, T: AccountSetValidate<A> + SingleAccountSet> AccountSetValidate<A> for Mut<T> {
    open spec fn validates(&self, arg: &A, ctx: &Context, valid: Result<(), ErrorCode>) -> bool {
        exists|inner: Result<(), ErrorCode>| #[trigger]
            self.0.validates(arg, ctx, inner) && valid == and_then(
                inner,
                check_writable_spec(self.0.info()),
            )
    }

    fn validate_accounts(&self, arg: &A, ctx: &Context) -> (valid: Result<(), ErrorCode>) {
        match self.0.validate_accounts(arg, ctx) {
            Err(e) => Err(e),
            Ok(()) => check_writable(self.0.account_info()),
        }
    }
}

impl<A, T: AccountSetCleanup<A>> AccountSetCleanup<A> for Signer<T> {
    open spec fn cleans(&self, arg: &A, ctx: &Context, clean: Result<(), ErrorCode>) -> bool {
        self.0.cleans(arg, ctx, clean)
    }

    fn cleanup_accounts(&self, arg: &A, ctx: &Context) -> (clean: Result<(), ErrorCode>) {
        self.0.cleanup_accounts(arg, ctx)
    }
}

impl<A, T: AccountSetCleanup<A>> AccountSetCleanup<A> for Mut<T> {
    open spec fn cleans(&self, arg: &A, ctx: &Context, clean: Result<(), ErrorCode>) -> bool {
        self.0.cleans(arg, ctx, clean)
    }

    fn cleanup_accounts(&self, arg: &A, ctx: &Context) -> (clean: Result<(), ErrorCode>) {
        self.0.cleanup_accounts(arg, ctx)
    }
}

/// Two declarations side by side: the first takes its accounts, then the
/// second takes its own. Either both are decoded or no account is taken.
impl<'a, A, B> AccountSetDecode<'a, ()> for (A, B) where
    A: AccountSetDecode<'a, ()>,
    B: AccountSetDecode<'a, ()>,
 {
    open spec fn arity(arg: &()) -> nat {
        A::arity(arg) + B::arity(arg)
    }

    open spec fn is_decoded(accounts: Seq<AccountInfo>, arg: &(), set: Self) -> bool {
        A::is_decoded(accounts.subrange(0, A::arity(arg) as int), arg, set.0) && B::is_decoded(
            accounts.subrange(A::arity(arg) as int, (A::arity(arg) + B::arity(arg)) as int),
            arg,
            set.1,
        )
    }

    fn required_accounts(arg: &()) -> (count: Option<usize>) {
        match A::required_accounts(arg) {
            None => None,
            Some(first) => match B::required_accounts(arg) {
                None => None,
                Some(second) => first.checked_add(second),
            },
        }
    }

    fn decode_accounts(cursor: &mut AccountCursor<'a>, arg: &(), ctx: &Context) -> (set: Result<
        Self,
        ErrorCode,
    >) {
        let left = cursor.remaining_len();
        match Self::required_accounts(arg) {
            None => {
                return Err(ErrorCode::AccountArity { expected: usize::MAX, got: left });
            },
            Some(count) => {
                if left < count {
                    return Err(ErrorCode::AccountArity { expected: count, got: left });
                }
            },
        }
        let ghost window = cursor.window(Self::arity(arg));
        let ghost first_arity = A::arity(arg);
        let first = A::decode_accounts(cursor, arg, ctx)?;
        assert(window.subrange(0, first_arity as int) =~= old(cursor).window(first_arity));
        assert(window.subrange(first_arity as int, (first_arity + B::arity(arg)) as int)
            =~= cursor.window(B::arity(arg)));
        let second = B::decode_accounts(cursor, arg, ctx)?;
        Ok((first, second))
    }
}

impl<A, B> AccountSetValidate<()> for (A, B) where
    A: AccountSetValidate<()>,
    B: AccountSetValidate<()>,
 {
    open spec fn validates(&self, arg: &(), ctx: &Context, valid: Result<(), ErrorCode>) -> bool {
        exists|first: Result<(), ErrorCode>| #[trigger]
            self.0.validates(arg, ctx, first) && match first {
                Err(e) => valid == Err::<(), ErrorCode>(e),
                Ok(()) => self.1.validates(arg, ctx, valid),
            }
    }

    fn validate_accounts(&self, arg: &(), ctx: &Context) -> (valid: Result<(), ErrorCode>) {
        let first = self.0.validate_accounts(arg, ctx);
        if first.is_err() {
            return first;
        }
        self.1.validate_accounts(arg, ctx)
    }
}

impl<A, B> AccountSetCleanup<()> for (A, B) where
    A: AccountSetCleanup<()>,
    B: AccountSetCleanup<()>,
 {
    open spec fn cleans(&self, arg: &(), ctx: &Context, clean: Result<(), ErrorCode>) -> bool {
        exists|first: Result<(), ErrorCode>| #[trigger]
            self.0.cleans(arg, ctx, first) && match first {
                Err(e) => clean == Err::<(), ErrorCode>(e),
                Ok(()) => self.1.cleans(arg, ctx, clean),
            }
    }

    fn cleanup_accounts(&self, arg: &(), ctx: &Context) -> (clean: Result<(), ErrorCode>) {
        let first = self.0.cleanup_accounts(arg, ctx);
        if first.is_err() {
            return first;
        }
        self.1.cleanup_accounts(arg, ctx)
    }
}

/// Three declarations side by side, decoded in order. Either all are
/// decoded or no account is taken.
impl<'a, A, B, C> AccountSetDecode<'a, ()> for (A, B, C) where
    A: AccountSetDecode<'a, ()>,
    B: AccountSetDecode<'a, ()>,
    C: AccountSetDecode<'a, ()>,
 {
    open spec fn arity(arg: &()) -> nat {
        A::arity(arg) + B::arity(arg) + C::arity(arg)
    }

    open spec fn is_decoded(accounts: Seq<AccountInfo>, arg: &(), set: Self) -> bool {
        A::is_decoded(accounts.subrange(0, A::arity(arg) as int), arg, set.0) && B::is_decoded(
            accounts.subrange(A::arity(arg) as int, (A::arity(arg) + B::arity(arg)) as int),
            arg,
            set.1,
        ) && C::is_decoded(
            accounts.subrange(
                (A::arity(arg) + B::arity(arg)) as int,
                (A::arity(arg) + B::arity(arg) + C::arity(arg)) as int,
            ),
            arg,
            set.2,
        )
    }

    fn required_accounts(arg: &()) -> (count: Option<usize>) {
        match A::required_accounts(arg) {
            None => None,
            Some(first) => match B::required_accounts(arg) {
                None => None,
                Some(second) => match first.checked_add(second) {
                    None => None,
                    Some(both) => match C::required_accounts(arg) {
                        None => None,
                        Some(third) => both.checked_add(third),
                    },
                },
            },
        }
    }

    fn decode_accounts(cursor: &mut AccountCursor<'a>, arg: &(), ctx: &Context) -> (set: Result<
        Self,
        ErrorCode,
    >) {
        let left = cursor.remaining_len();
        match Self::required_accounts(arg) {
            None => {
                return Err(ErrorCode::AccountArity { expected: usize::MAX, got: left });
            },
            Some(count) => {
                if left < count {
                    return Err(ErrorCode::AccountArity { expected: count, got: left });
                }
            },
        }
        let ghost window = cursor.window(Self::arity(arg));
        let ghost first_arity = A::arity(arg);
        let ghost second_arity = B::arity(arg);
        let first = A::decode_accounts(cursor, arg, ctx)?;
        assert(window.subrange(0, first_arity as int) =~= old(cursor).window(first_arity));
        assert(window.subrange(first_arity as int, (first_arity + second_arity) as int)
            =~= cursor.window(second_arity));
        let second = B::decode_accounts(cursor, arg, ctx)?;
        assert(window.subrange(
            (first_arity + second_arity) as int,
            (first_arity + second_arity + C::arity(arg)) as int,
        ) =~= cursor.window(C::arity(arg)));
        let third = C::decode_accounts(cursor, arg, ctx)?;
        Ok((first, second, third))
    }
}

impl<A, B, C> AccountSetValidate<()> for (A, B, C) where
    A: AccountSetValidate<()>,
    B: AccountSetValidate<()>,
    C: AccountSetValidate<()>,
 {
    open spec fn validates(&self, arg: &(), ctx: &Context, valid: Result<(), ErrorCode>) -> bool {
        exists|first: Result<(), ErrorCode>| #[trigger]
            self.0.validates(arg, ctx, first) && match first {
                Err(e) => valid == Err::<(), ErrorCode>(e),
                Ok(()) => exists|second: Result<(), ErrorCode>| #[trigger]
                    self.1.validates(arg, ctx, second) && match second {
                        Err(e) => valid == Err::<(), ErrorCode>(e),
                        Ok(()) => self.2.validates(arg, ctx, valid),
                    },
            }
    }

    fn validate_accounts(&self, arg: &(), ctx: &Context) -> (valid: Result<(), ErrorCode>) {
        let first = self.0.validate_accounts(arg, ctx);
        if first.is_err() {
            return first;
        }
        let second = self.1.validate_accounts(arg, ctx);
        if second.is_err() {
            return second;
        }
        self.2.validate_accounts(arg, ctx)
    }
}

impl<A, B, C> AccountSetCleanup<()> for (A, B, C) where
    A: AccountSetCleanup<()>,
    B: AccountSetCleanup<()>,
    C: AccountSetCleanup<()>,
 {
    open spec fn cleans(&self, arg: &(), ctx: &Context, clean: Result<(), ErrorCode>) -> bool {
        exists|first: Result<(), ErrorCode>| #[trigger]
            self.0.cleans(arg, ctx, first) && match first {
                Err(e) => clean == Err::<(), ErrorCode>(e),
                Ok(()) => exists|second: Result<(), ErrorCode>| #[trigger]
                    self.1.cleans(arg, ctx, second) && match second {
                        Err(e) => clean == Err::<(), ErrorCode>(e),
                        Ok(()) => self.2.cleans(arg, ctx, clean),
                    },
            }
    }

    fn cleanup_accounts(&self, arg: &(), ctx: &Context) -> (clean: Result<(), ErrorCode>) {
        let first = self.0.cleanup_accounts(arg, ctx);
        if first.is_err() {
            return first;
        }
        let second = self.1.cleanup_accounts(arg, ctx);
        if second.is_err() {
            return second;
        }
        self.2.cleanup_accounts(arg, ctx)
    }
}

/// A run of declarations of one kind, decoded one after the other. The
/// argument says how many there are.
impl<'a, T> AccountSetDecode<'a, usize> for Vec<T> where T: AccountSetDecode<'a, ()> {
    open spec fn arity(arg: &usize) -> nat {
        (*arg as nat) * T::arity(&())
    }

    open spec fn is_decoded(accounts: Seq<AccountInfo>, arg: &usize, set: Self) -> bool {
        set@.len() == *arg && forall|i: int|
            0 <= i < *arg ==> #[trigger] T::is_decoded(
                accounts.subrange(i * T::arity(&()), (i + 1) * T::arity(&())),
                &(),
                set@[i],
            )
    }

    fn required_accounts(arg: &usize) -> (count: Option<usize>) {
        proof {
            lemma_run_arity(*arg as nat, T::arity(&()));
        }
        match T::required_accounts(&()) {
            None => if *arg == 0 {
                Some(0)
            } else {
                None
            },
            Some(each) => arg.checked_mul(each),
        }
    }

    fn decode_accounts(cursor: &mut AccountCursor<'a>, arg: &usize, ctx: &Context) -> (set: Result<
        Self,
        ErrorCode,
    >) {
        let left = cursor.remaining_len();
        match Self::required_accounts(arg) {
            None => {
                return Err(ErrorCode::AccountArity { expected: usize::MAX, got: left });
            },
            Some(count) => {
                if left < count {
                    return Err(ErrorCode::AccountArity { expected: count, got: left });
                }
            },
        }
        let ghost each = T::arity(&());
        let ghost start = cursor.position();
        let ghost window = cursor.window(Self::arity(arg));
        let mut set: Vec<T> = Vec::new();
        let mut i: usize = 0;
        while i < *arg
            invariant
                i <= *arg,
                each == T::arity(&()),
                set@.len() == i,
                cursor.accounts() == old(cursor).accounts(),
                start == old(cursor).position(),
                cursor.position() == start + i * each,
                start + *arg * each <= cursor.accounts().len(),
                window == old(cursor).window((*arg as nat) * each),
                forall|j: int|
                    0 <= j < i ==> #[trigger] T::is_decoded(
                        window.subrange(j * each, (j + 1) * each),
                        &(),
                        set@[j],
                    ),
            decreases *arg - i,
        {
            proof {
                lemma_run_step(i as nat, *arg as nat, each);
            }
            assert(cursor.window(each) =~= window.subrange(i * each, (i + 1) * each));
            let item = T::decode_accounts(cursor, &(), ctx)?;
            set.push(item);
            i += 1;
        }
        Ok(set)
    }
}

/// A run of `count` declarations of `each` accounts takes none where it is
/// empty, and more than can be counted where one declaration does.
proof fn lemma_run_arity(count: nat, each: nat)
    ensures
        count == 0 ==> count * each == 0,
        count > 0 && each > usize::MAX ==> count * each > usize::MAX,
{
    assert(count > 0 && each > usize::MAX ==> count * each > usize::MAX) by (nonlinear_arith);
}

/// Where the accounts of a run begin and end for its declaration `i`.
proof fn lemma_run_step(i: nat, count: nat, each: nat)
    requires
        i < count,
    ensures
        (i + 1) * each == i * each + each,
        (i + 1) * each <= count * each,
        0 <= i * each,
{
    assert((i + 1) * each == i * each + each) by (nonlinear_arith);
    assert((i + 1) * each <= count * each) by (nonlinear_arith)
        requires
            i + 1 <= count,
    ;
}

/// Whether `valid` is what validating `items` from the index `from` on
/// yields: the failure of the first that fails, or `Ok`.
pub open spec fn run_validates<A, T: AccountSetValidate<A>>(
    items: Seq<T>,
    from: int,
    arg: &A,
    ctx: &Context,
    valid: Result<(), ErrorCode>,
) -> bool
    decreases items.len() - from,
{
    if from < 0 || from >= items.len() {
        valid == Ok::<(), ErrorCode>(())
    } else {
        exists|first: Result<(), ErrorCode>| #[trigger]
            items[from].validates(arg, ctx, first) && match first {
                Err(e) => valid == Err::<(), ErrorCode>(e),
                Ok(()) => run_validates(items, from + 1, arg, ctx, valid),
            }
    }
}

/// Whether `clean` is what cleaning up `items` from the index `from` on
/// yields: the failure of the first that fails, or `Ok`.
pub open spec fn run_cleans<A, T: AccountSetCleanup<A>>(
    items: Seq<T>,
    from: int,
    arg: &A,
    ctx: &Context,
    clean: Result<(), ErrorCode>,
) -> bool
    decreases items.len() - from,
{
    if from < 0 || from >= items.len() {
        clean == Ok::<(), ErrorCode>(())
    } else {
        exists|first: Result<(), ErrorCode>| #[trigger]
            items[from].cleans(arg, ctx, first) && match first {
                Err(e) => clean == Err::<(), ErrorCode>(e),
                Ok(()) => run_cleans(items, from + 1, arg, ctx, clean),
            }
    }
}

impl<A, T> AccountSetValidate<A> for Vec<T> where T: AccountSetValidate<A> {
    open spec fn validates(&self, arg: &A, ctx: &Context, valid: Result<(), ErrorCode>) -> bool {
        run_validates(self@, 0, arg, ctx, valid)
    }

    fn validate_accounts(&self, arg: &A, ctx: &Context) -> (valid: Result<(), ErrorCode>) {
        let mut i: usize = 0;
        while i < self.len()
            invariant
                i <= self@.len(),
                forall|valid: Result<(), ErrorCode>| #[trigger]
                    run_validates(self@, i as int, arg, ctx, valid) ==> run_validates(
                        self@,
                        0,
                        arg,
                        ctx,
                        valid,
                    ),
            decreases self@.len() - i,
        {
            let first = self[i].validate_accounts(arg, ctx);
            if first.is_err() {
                assert(run_validates(self@, i as int, arg, ctx, first));
                return first;
            }
            assert forall|valid: Result<(), ErrorCode>| #[trigger]
                run_validates(self@, i + 1, arg, ctx, valid) implies run_validates(
                self@,
                0,
                arg,
                ctx,
                valid,
            ) by {
                assert(run_validates(self@, i as int, arg, ctx, valid));
            }
            i += 1;
        }
        assert(run_validates(self@, i as int, arg, ctx, Ok::<(), ErrorCode>(())));
        Ok(())
    }
}

impl<A, T> AccountSetCleanup<A> for Vec<T> where T: AccountSetCleanup<A> {
    open spec fn cleans(&self, arg: &A, ctx: &Context, clean: Result<(), ErrorCode>) -> bool {
        run_cleans(self@, 0, arg, ctx, clean)
    }

    fn cleanup_accounts(&self, arg: &A, ctx: &Context) -> (clean: Result<(), ErrorCode>) {
        let mut i: usize = 0;
        while i < self.len()
            invariant
                i <= self@.len(),
                forall|clean: Result<(), ErrorCode>| #[trigger]
                    run_cleans(self@, i as int, arg, ctx, clean) ==> run_cleans(
                        self@,
                        0,
                        arg,
                        ctx,
                        clean,
                    ),
            decreases self@.len() - i,
        {
            let first = self[i].cleanup_accounts(arg, ctx);
            if first.is_err() {
                assert(run_cleans(self@, i as int, arg, ctx, first));
                return first;
            }
            assert forall|clean: Result<(), ErrorCode>| #[trigger]
                run_cleans(self@, i + 1, arg, ctx, clean) implies run_cleans(
                self@,
                0,
                arg,
                ctx,
                clean,
            ) by {
                assert(run_cleans(self@, i as int, arg, ctx, clean));
            }
            i += 1;
        }
        assert(run_cleans(self@, i as int, arg, ctx, Ok::<(), ErrorCode>(())));
        Ok(())
    }
}

} // verus!
