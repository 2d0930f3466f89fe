use star_frame::account_info::{AccountInfo, AccountMeta};
use star_frame::account_set::{
    check_signer, check_writable, AccountCursor, AccountSetCleanup, AccountSetDecode,
    AccountSetValidate, Mut, Signer, SingleAccountSet,
};
use star_frame::context::Context;
use star_frame::errors::{ErrorCode, ValidationError};
use star_frame::program::{Program, StarFrameProgram, System};
use star_frame::token::{Token, TokenAccount};

fn account(seed: u8, is_signer: bool, is_writable: bool) -> AccountInfo {
    AccountInfo {
        key: [seed; 32],
        owner: [0; 32],
        lamports: 0,
        data: Vec::new(),
        is_signer,
        is_writable,
        executable: false,
    }
}

fn context() -> Context {
    Context::new(&[42; 32])
}

#[test]
fn three_accounts_needed_two_given() {
    let accounts = vec![account(1, false, false), account(2, false, false)];
    let ctx = context();
    let mut cursor = AccountCursor::new(&accounts);
    let decoded =
        <(&AccountInfo, &AccountInfo, &AccountInfo)>::decode_accounts(&mut cursor, &(), &ctx);
    assert_eq!(decoded, Err(ErrorCode::AccountArity { expected: 3, got: 2 }));
    // nothing was taken: the two accounts are still there for the next declaration
    assert_eq!(cursor.remaining_len(), 2);
    let next = <(&AccountInfo, &AccountInfo)>::decode_accounts(&mut cursor, &(), &ctx).unwrap();
    assert_eq!(next.0.key, [1; 32]);
    assert_eq!(next.1.key, [2; 32]);
    assert_eq!(cursor.remaining_len(), 0);
}

#[test]
fn arity_is_checked_before_any_validation() {
    // the two accounts would fail validation, but the shortfall comes first
    let accounts = vec![account(1, false, false), account(2, false, false)];
    let ctx = context();
    let mut cursor = AccountCursor::new(&accounts);
    let decoded = <(Signer<&AccountInfo>, Mut<&AccountInfo>, Signer<&AccountInfo>)>::decode_accounts(
        &mut cursor,
        &(),
        &ctx,
    );
    assert_eq!(decoded, Err(ErrorCode::AccountArity { expected: 3, got: 2 }));
    assert_eq!(cursor.remaining_len(), 2);
}

#[test]
fn declarations_take_their_accounts_in_order() {
    let accounts = vec![
        account(1, true, false),
        account(2, false, true),
        account(3, false, false),
        account(4, false, false),
    ];
    let ctx = context();
    let mut cursor = AccountCursor::new(&accounts);
    assert_eq!(cursor.remaining_len(), 4);
    let (signer, writable, plain) =
        <(Signer<&AccountInfo>, Mut<&AccountInfo>, &AccountInfo)>::decode_accounts(
            &mut cursor,
            &(),
            &ctx,
        )
        .unwrap();
    assert_eq!(signer.0.key, [1; 32]);
    assert_eq!(writable.0.key, [2; 32]);
    assert_eq!(plain.key, [3; 32]);
    assert_eq!(cursor.remaining_len(), 1);
    let last = <&AccountInfo>::decode_accounts(&mut cursor, &(), &ctx).unwrap();
    assert_eq!(last.key, [4; 32]);
    assert_eq!(cursor.remaining_len(), 0);
    assert_eq!(
        <&AccountInfo>::decode_accounts(&mut cursor, &(), &ctx),
        Err(ErrorCode::AccountArity { expected: 1, got: 0 })
    );
    assert_eq!(cursor.remaining_len(), 0);
}

#[test]
fn nested_tuples_count_all_their_accounts() {
    type Nested<'a> = ((&'a AccountInfo, &'a AccountInfo), (&'a AccountInfo, Mut<&'a AccountInfo>, &'a AccountInfo));
    assert_eq!(<Nested as AccountSetDecode<()>>::required_accounts(&()), Some(5));
    let accounts: Vec<AccountInfo> = (0..4).map(|i| account(i, false, true)).collect();
    let ctx = context();
    let mut cursor = AccountCursor::new(&accounts);
    assert_eq!(
        <Nested>::decode_accounts(&mut cursor, &(), &ctx),
        Err(ErrorCode::AccountArity { expected: 5, got: 4 })
    );
    assert_eq!(cursor.remaining_len(), 4);
    let accounts: Vec<AccountInfo> = (0..6).map(|i| account(i, false, true)).collect();
    let mut cursor = AccountCursor::new(&accounts);
    let set = <Nested>::decode_accounts(&mut cursor, &(), &ctx).unwrap();
    assert_eq!((set.0).0.key, [0; 32]);
    assert_eq!((set.0).1.key, [1; 32]);
    assert_eq!((set.1).0.key, [2; 32]);
    assert_eq!((set.1).1.0.key, [3; 32]);
    assert_eq!((set.1).2.key, [4; 32]);
    assert_eq!(cursor.remaining_len(), 1);
}

#[test]
fn cursor_checks_without_taking() {
    let accounts = vec![account(1, false, false), account(2, false, false)];
    let mut cursor = AccountCursor::new(&accounts);
    assert_eq!(cursor.require(2), Ok(()));
    assert_eq!(cursor.require(0), Ok(()));
    assert_eq!(cursor.require(3), Err(ErrorCode::AccountArity { expected: 3, got: 2 }));
    assert_eq!(cursor.remaining_len(), 2);
    assert_eq!(cursor.next_account().unwrap().key, [1; 32]);
    assert_eq!(cursor.require(2), Err(ErrorCode::AccountArity { expected: 2, got: 1 }));
    assert_eq!(cursor.next_account().unwrap().key, [2; 32]);
    assert_eq!(
        cursor.next_account(),
        Err(ErrorCode::AccountArity { expected: 1, got: 0 })
    );
}

#[test]
fn signer_required_but_flag_is_false() {
    let unsigned = account(1, false, true);
    let ctx = context();
    let set = Signer(&unsigned);
    assert_eq!(
        set.validate_accounts(&(), &ctx),
        Err(ErrorCode::Validation(ValidationError::MissingSigner))
    );
    let signed = account(1, true, false);
    assert_eq!(Signer(&signed).validate_accounts(&(), &ctx), Ok(()));
}

#[test]
fn writable_required_but_flag_is_false() {
    let readonly = account(1, true, false);
    let ctx = context();
    assert_eq!(
        Mut(&readonly).validate_accounts(&(), &ctx),
        Err(ErrorCode::Validation(ValidationError::NotWritable))
    );
    let writable = account(1, false, true);
    assert_eq!(Mut(&writable).validate_accounts(&(), &ctx), Ok(()));
}

#[test]
fn wrappers_check_inside_out_and_stop_at_the_first_failure() {
    let neither = account(1, false, false);
    let ctx = context();
    assert_eq!(
        Mut(Signer(&neither)).validate_accounts(&(), &ctx),
        Err(ErrorCode::Validation(ValidationError::MissingSigner))
    );
    assert_eq!(
        Signer(Mut(&neither)).validate_accounts(&(), &ctx),
        Err(ErrorCode::Validation(ValidationError::NotWritable))
    );
    let both = account(1, true, true);
    assert_eq!(Mut(Signer(&both)).validate_accounts(&(), &ctx), Ok(()));
    assert_eq!(Mut(Signer(&both)).account_info().key, [1; 32]);
}

#[test]
fn tuples_validate_in_order_and_stop_at_the_first_failure() {
    let readonly = account(1, true, false);
    let unsigned = account(2, false, true);
    let ctx = context();
    assert_eq!(
        (Mut(&readonly), Signer(&unsigned)).validate_accounts(&(), &ctx),
        Err(ErrorCode::Validation(ValidationError::NotWritable))
    );
    assert_eq!(
        (Signer(&unsigned), Mut(&readonly)).validate_accounts(&(), &ctx),
        Err(ErrorCode::Validation(ValidationError::MissingSigner))
    );
    assert_eq!(
        (Signer(&readonly), Mut(&unsigned), Signer(&unsigned)).validate_accounts(&(), &ctx),
        Err(ErrorCode::Validation(ValidationError::MissingSigner))
    );
    assert_eq!((Signer(&readonly), Mut(&unsigned)).validate_accounts(&(), &ctx), Ok(()));
    assert_eq!((Signer(&readonly), Mut(&unsigned)).cleanup_accounts(&(), &ctx), Ok(()));
    assert_eq!(
        (Signer(&readonly), Mut(&unsigned), &readonly).cleanup_accounts(&(), &ctx),
        Ok(())
    );
}

#[test]
fn flag_checks_on_their_own() {
    assert_eq!(check_signer(&account(1, true, false)), Ok(()));
    assert_eq!(
        check_signer(&account(1, false, true)),
        Err(ErrorCode::Validation(ValidationError::MissingSigner))
    );
    assert_eq!(check_writable(&account(1, false, true)), Ok(()));
    assert_eq!(
        check_writable(&account(1, true, false)),
        Err(ErrorCode::Validation(ValidationError::NotWritable))
    );
}

#[test]
fn program_account_must_live_at_the_program_address() {
    let ctx = context();
    let mut system = account(0, false, false);
    system.key = System::ID;
    let accounts = vec![system, account(9, false, false)];
    let mut cursor = AccountCursor::new(&accounts);
    let program = <Program<System>>::decode_accounts(&mut cursor, &(), &ctx).unwrap();
    assert_eq!(program.validate_accounts(&(), &ctx), Ok(()));
    let other = <Program<System>>::decode_accounts(&mut cursor, &(), &ctx).unwrap();
    assert_eq!(
        other.validate_accounts(&(), &ctx),
        Err(ErrorCode::Validation(ValidationError::AddressMismatch))
    );
    let as_token = <Program<Token>>::decode_accounts(&mut AccountCursor::new(&accounts), &(), &ctx)
        .unwrap();
    assert_eq!(
        as_token.validate_accounts(&(), &ctx),
        Err(ErrorCode::Validation(ValidationError::AddressMismatch))
    );
}

#[test]
fn token_account_must_be_owned_by_the_token_program() {
    let ctx = context();
    let mut owned = account(5, false, false);
    owned.owner = Token::ID;
    let foreign = account(6, false, false);
    let accounts = vec![owned, foreign];
    let mut cursor = AccountCursor::new(&accounts);
    let first = TokenAccount::decode_accounts(&mut cursor, &(), &ctx).unwrap();
    let second = TokenAccount::decode_accounts(&mut cursor, &(), &ctx).unwrap();
    assert_eq!(first.validate_accounts(&(), &ctx), Ok(()));
    assert_eq!(
        second.validate_accounts(&(), &ctx),
        Err(ErrorCode::Validation(ValidationError::OwnerMismatch))
    );
    assert_eq!(TokenAccount::LEN, 165);
}

#[test]
fn accounts_answer_for_their_owner_key_and_length() {
    let mut info = account(3, false, false);
    info.owner = [8; 32];
    info.data = vec![1, 2, 3];
    assert!(info.is_owned_by(&[8; 32]));
    assert!(!info.is_owned_by(&[3; 32]));
    assert!(info.has_key(&[3; 32]));
    let mut almost = [3u8; 32];
    almost[31] = 4;
    assert!(!info.has_key(&almost));
    assert_eq!(info.data_len(), 3);
}

#[test]
fn metas_carry_the_flags_they_are_made_with() {
    let key = [7u8; 32];
    assert_eq!(
        AccountMeta::readonly(&key),
        AccountMeta { pubkey: key, is_writable: false, is_signer: false }
    );
    assert_eq!(
        AccountMeta::writable(&key),
        AccountMeta { pubkey: key, is_writable: true, is_signer: false }
    );
    assert_eq!(
        AccountMeta::readonly_signer(&key),
        AccountMeta { pubkey: key, is_writable: false, is_signer: true }
    );
    assert_eq!(
        AccountMeta::writable_signer(&key),
        AccountMeta { pubkey: key, is_writable: true, is_signer: true }
    );
}

#[test]
fn argument_says_how_many_accounts_a_run_takes() {
    let accounts: Vec<AccountInfo> = (0..5).map(|i| account(i, i % 2 == 0, true)).collect();
    let ctx = context();
    let mut cursor = AccountCursor::new(&accounts);
    let run = <Vec<&AccountInfo>>::decode_accounts(&mut cursor, &3, &ctx).unwrap();
    assert_eq!(run.len(), 3);
    assert_eq!(run[0].key, [0; 32]);
    assert_eq!(run[1].key, [1; 32]);
    assert_eq!(run[2].key, [2; 32]);
    assert_eq!(cursor.remaining_len(), 2);
    // three more are asked for, two are left: none is taken
    assert_eq!(
        <Vec<&AccountInfo>>::decode_accounts(&mut cursor, &3, &ctx),
        Err(ErrorCode::AccountArity { expected: 3, got: 2 })
    );
    assert_eq!(cursor.remaining_len(), 2);
    let none = <Vec<&AccountInfo>>::decode_accounts(&mut cursor, &0, &ctx).unwrap();
    assert!(none.is_empty());
    assert_eq!(cursor.remaining_len(), 2);
    let pairs =
        <Vec<(Mut<&AccountInfo>, Signer<&AccountInfo>)>>::decode_accounts(&mut cursor, &1, &ctx)
            .unwrap();
    assert_eq!((pairs[0].0).0.key, [3; 32]);
    assert_eq!((pairs[0].1).0.key, [4; 32]);
    assert_eq!(cursor.remaining_len(), 0);
}

#[test]
fn runs_count_the_accounts_of_all_their_declarations() {
    type Pair<'a> = (&'a AccountInfo, &'a AccountInfo);
    assert_eq!(<Vec<Pair> as AccountSetDecode<usize>>::required_accounts(&4), Some(8));
    assert_eq!(<Vec<Pair> as AccountSetDecode<usize>>::required_accounts(&0), Some(0));
    assert_eq!(<Vec<Pair> as AccountSetDecode<usize>>::required_accounts(&usize::MAX), None);
    assert_eq!(<Vec<&AccountInfo> as AccountSetDecode<usize>>::required_accounts(&usize::MAX), Some(usize::MAX));
    let accounts: Vec<AccountInfo> = (0..7).map(|i| account(i, false, false)).collect();
    let ctx = context();
    let mut cursor = AccountCursor::new(&accounts);
    assert_eq!(
        <Vec<Pair>>::decode_accounts(&mut cursor, &4, &ctx),
        Err(ErrorCode::AccountArity { expected: 8, got: 7 })
    );
    assert_eq!(
        <Vec<Pair>>::decode_accounts(&mut cursor, &usize::MAX, &ctx),
        Err(ErrorCode::AccountArity { expected: usize::MAX, got: 7 })
    );
    assert_eq!(cursor.remaining_len(), 7);
    let run = <Vec<Pair>>::decode_accounts(&mut cursor, &3, &ctx).unwrap();
    assert_eq!(run[2].1.key, [5; 32]);
    assert_eq!(cursor.remaining_len(), 1);
}

#[test]
fn runs_validate_in_order_and_stop_at_the_first_failure() {
    let signed = account(1, true, true);
    let unsigned = account(2, false, true);
    let readonly = account(3, true, false);
    let ctx = context();
    let good = vec![Mut(Signer(&signed)), Mut(Signer(&signed))];
    assert_eq!(good.validate_accounts(&(), &ctx), Ok(()));
    assert_eq!(good.cleanup_accounts(&(), &ctx), Ok(()));
    let bad = vec![Mut(Signer(&signed)), Mut(Signer(&readonly)), Mut(Signer(&unsigned))];
    assert_eq!(
        bad.validate_accounts(&(), &ctx),
        Err(ErrorCode::Validation(ValidationError::NotWritable))
    );
    let bad = vec![Mut(Signer(&unsigned)), Mut(Signer(&readonly))];
    assert_eq!(
        bad.validate_accounts(&(), &ctx),
        Err(ErrorCode::Validation(ValidationError::MissingSigner))
    );
    let empty: Vec<Signer<&AccountInfo>> = Vec::new();
    assert_eq!(empty.validate_accounts(&(), &ctx), Ok(()));
}
