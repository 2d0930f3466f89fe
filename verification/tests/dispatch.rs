use star_frame::account_info::AccountInfo;
use star_frame::associated_token::instructions::{
    AssociatedTokenInstructionSet, Create, CreateAccounts, CreateIdempotent, RecoverNested,
    RecoverNestedAccounts,
};
use star_frame::associated_token::AssociatedToken;
use star_frame::account_set::{AccountCursor, AccountSetCleanup, AccountSetDecode, AccountSetValidate};
use star_frame::context::Context;
use star_frame::errors::{DecodeError, ErrorCode, ValidationError};
use star_frame::instruction::{
    run_instruction, Instruction, InstructionArgs, InstructionDiscriminant, InstructionSet, IxArgs,
    ReturnData, StarFrameInstruction,
};
use star_frame::program::{StarFrameProgram, System};
use star_frame::token::Token;

fn plain(seed: u8) -> AccountInfo {
    AccountInfo {
        key: [seed; 32],
        owner: [0; 32],
        lamports: 0,
        data: Vec::new(),
        is_signer: false,
        is_writable: false,
        executable: false,
    }
}

fn create_accounts() -> Vec<AccountInfo> {
    let mut funder = plain(1);
    funder.is_signer = true;
    funder.is_writable = true;
    let mut token_account = plain(2);
    token_account.is_writable = true;
    let wallet = plain(3);
    let mint = plain(4);
    let mut system_program = plain(0);
    system_program.key = System::ID;
    system_program.executable = true;
    let mut token_program = plain(0);
    token_program.key = Token::ID;
    token_program.executable = true;
    vec![funder, token_account, wallet, mint, system_program, token_program]
}

fn recover_accounts() -> Vec<AccountInfo> {
    let mut accounts: Vec<AccountInfo> = (10..17).map(plain).collect();
    accounts[0].is_writable = true;
    accounts[2].is_writable = true;
    accounts[3].is_writable = true;
    accounts[5].is_writable = true;
    accounts[5].is_signer = true;
    accounts[6].key = Token::ID;
    accounts
}

fn ctx() -> Context {
    Context::new(&AssociatedToken::ID)
}

#[test]
fn tags_outside_the_set_are_unknown() {
    let accounts = create_accounts();
    for tag in 3..=255u8 {
        assert_eq!(
            AssociatedTokenInstructionSet::dispatch(ctx(), &accounts, &[tag]),
            Err(ErrorCode::UnknownDiscriminant(tag))
        );
        assert_eq!(
            AssociatedTokenInstructionSet::dispatch(ctx(), &[], &[tag, 1, 2, 3]),
            Err(ErrorCode::UnknownDiscriminant(tag))
        );
    }
}

#[test]
fn the_empty_set_knows_no_tag() {
    for tag in [0u8, 1, 2, 77, 255] {
        assert_eq!(
            <() as InstructionSet>::dispatch(ctx(), &create_accounts(), &[tag]),
            Err(ErrorCode::UnknownDiscriminant(tag))
        );
    }
    assert_eq!(
        <() as InstructionSet>::dispatch(ctx(), &[], &[]),
        Err(ErrorCode::Decode(DecodeError::TooShort { expected: 1, actual: 0 }))
    );
}

#[test]
fn payload_without_tag_is_a_decode_error() {
    assert_eq!(
        AssociatedTokenInstructionSet::dispatch(ctx(), &create_accounts(), &[]),
        Err(ErrorCode::Decode(DecodeError::TooShort { expected: 1, actual: 0 }))
    );
}

#[test]
fn create_runs_on_its_six_accounts() {
    let accounts = create_accounts();
    assert_eq!(AssociatedTokenInstructionSet::dispatch(ctx(), &accounts, &[0]), Ok(Vec::new()));
    assert_eq!(AssociatedTokenInstructionSet::dispatch(ctx(), &accounts, &[1]), Ok(Vec::new()));
    assert_eq!(Create::process_from_raw(ctx(), &accounts, &[]), Ok(Vec::new()));
    assert_eq!(CreateIdempotent::process_from_raw(ctx(), &accounts, &[]), Ok(Vec::new()));
    assert_eq!(run_instruction(&Create, ctx(), &accounts), Ok(Vec::new()));
}

#[test]
fn accounts_beyond_the_declaration_are_left_alone() {
    let mut accounts = create_accounts();
    accounts.push(plain(99));
    assert_eq!(AssociatedTokenInstructionSet::dispatch(ctx(), &accounts, &[0]), Ok(Vec::new()));
}

#[test]
fn recover_nested_runs_on_its_seven_accounts() {
    let accounts = recover_accounts();
    assert_eq!(AssociatedTokenInstructionSet::dispatch(ctx(), &accounts, &[2]), Ok(Vec::new()));
    assert_eq!(RecoverNested::process_from_raw(ctx(), &accounts, &[]), Ok(Vec::new()));
    assert_eq!(
        AssociatedTokenInstructionSet::dispatch(ctx(), &accounts[..6], &[2]),
        Err(ErrorCode::AccountArity { expected: 7, got: 6 })
    );
}

#[test]
fn too_few_accounts_fail_before_validation() {
    // none of these accounts would pass validation
    let accounts: Vec<AccountInfo> = (0..5).map(plain).collect();
    assert_eq!(
        AssociatedTokenInstructionSet::dispatch(ctx(), &accounts, &[0]),
        Err(ErrorCode::AccountArity { expected: 6, got: 5 })
    );
    assert_eq!(
        AssociatedTokenInstructionSet::dispatch(ctx(), &[], &[1]),
        Err(ErrorCode::AccountArity { expected: 6, got: 0 })
    );
}

#[test]
fn payload_is_decoded_before_any_account_is_looked_at() {
    assert_eq!(
        AssociatedTokenInstructionSet::dispatch(ctx(), &[], &[0, 1]),
        Err(ErrorCode::Decode(DecodeError::MalformedTrailing))
    );
    assert_eq!(
        Create::process_from_raw(ctx(), &create_accounts(), &[0]),
        Err(ErrorCode::Decode(DecodeError::MalformedTrailing))
    );
}

#[test]
fn funder_that_did_not_sign_is_a_missing_signer() {
    let mut accounts = create_accounts();
    accounts[0].is_signer = false;
    assert_eq!(
        AssociatedTokenInstructionSet::dispatch(ctx(), &accounts, &[0]),
        Err(ErrorCode::Validation(ValidationError::MissingSigner))
    );
    // the signer is missed first, whatever else is wrong
    accounts[0].is_writable = false;
    accounts[1].is_writable = false;
    accounts[5].key = [9; 32];
    assert_eq!(
        AssociatedTokenInstructionSet::dispatch(ctx(), &accounts, &[1]),
        Err(ErrorCode::Validation(ValidationError::MissingSigner))
    );
}

#[test]
fn validation_reports_the_first_failure_in_field_order() {
    let mut accounts = create_accounts();
    accounts[0].is_writable = false;
    accounts[1].is_writable = false;
    assert_eq!(
        AssociatedTokenInstructionSet::dispatch(ctx(), &accounts, &[0]),
        Err(ErrorCode::Validation(ValidationError::NotWritable))
    );
    let mut accounts = create_accounts();
    accounts[1].is_writable = false;
    accounts[4].key = [9; 32];
    assert_eq!(
        AssociatedTokenInstructionSet::dispatch(ctx(), &accounts, &[0]),
        Err(ErrorCode::Validation(ValidationError::NotWritable))
    );
    let mut accounts = create_accounts();
    accounts[4].key = [9; 32];
    assert_eq!(
        AssociatedTokenInstructionSet::dispatch(ctx(), &accounts, &[0]),
        Err(ErrorCode::Validation(ValidationError::AddressMismatch))
    );
    let mut accounts = create_accounts();
    accounts[5].key = System::ID;
    assert_eq!(
        AssociatedTokenInstructionSet::dispatch(ctx(), &accounts, &[0]),
        Err(ErrorCode::Validation(ValidationError::AddressMismatch))
    );
}

#[test]
fn recover_nested_wallet_must_sign() {
    let mut accounts = recover_accounts();
    accounts[5].is_signer = false;
    assert_eq!(
        AssociatedTokenInstructionSet::dispatch(ctx(), &accounts, &[2]),
        Err(ErrorCode::Validation(ValidationError::MissingSigner))
    );
    let mut accounts = recover_accounts();
    accounts[3].is_writable = false;
    accounts[5].is_signer = false;
    assert_eq!(
        AssociatedTokenInstructionSet::dispatch(ctx(), &accounts, &[2]),
        Err(ErrorCode::Validation(ValidationError::NotWritable))
    );
}

#[test]
fn stages_of_the_account_set_can_be_run_one_by_one() {
    let accounts = create_accounts();
    let context = ctx();
    let mut cursor = AccountCursor::new(&accounts);
    let set = CreateAccounts::decode_accounts(&mut cursor, &(), &context).unwrap();
    assert_eq!(cursor.remaining_len(), 0);
    assert_eq!(set.funder.0.0.key, [1; 32]);
    assert_eq!(set.token_account.0.key, [2; 32]);
    assert_eq!(set.wallet.key, [3; 32]);
    assert_eq!(set.mint.key, [4; 32]);
    assert_eq!(set.system_program.info.key, System::ID);
    assert_eq!(set.token_program.info.key, Token::ID);
    assert_eq!(set.validate_accounts(&(), &context), Ok(()));
    assert_eq!(set.cleanup_accounts(&(), &context), Ok(()));
    assert_eq!(CreateAccounts::required_accounts(&()), Some(6));
    assert_eq!(RecoverNestedAccounts::required_accounts(&()), Some(7));

    let five = &accounts[..5];
    let mut cursor = AccountCursor::new(five);
    assert_eq!(
        CreateAccounts::decode_accounts(&mut cursor, &(), &context).err(),
        Some(ErrorCode::AccountArity { expected: 6, got: 5 })
    );
    assert_eq!(cursor.remaining_len(), 5);
}

#[test]
fn instructions_have_their_tags() {
    assert_eq!(<Create as InstructionDiscriminant<AssociatedTokenInstructionSet>>::DISCRIMINANT, 0);
    assert_eq!(
        <CreateIdempotent as InstructionDiscriminant<AssociatedTokenInstructionSet>>::DISCRIMINANT,
        1
    );
    assert_eq!(
        <RecoverNested as InstructionDiscriminant<AssociatedTokenInstructionSet>>::DISCRIMINANT,
        2
    );
    assert_eq!(
        <Create as InstructionDiscriminant<AssociatedTokenInstructionSet>>::discriminant_bytes(),
        vec![0]
    );
    assert_eq!(
        <RecoverNested as InstructionDiscriminant<AssociatedTokenInstructionSet>>::discriminant_bytes(),
        vec![2]
    );
}

#[test]
fn unit_instructions_round_trip_through_no_bytes() {
    assert_eq!(Create.to_bytes(), Some(Vec::<u8>::new()));
    assert_eq!(Create::from_bytes(&Create.to_bytes().unwrap()), Ok(Create));
    assert_eq!(
        CreateIdempotent::from_bytes(&CreateIdempotent.to_bytes().unwrap()),
        Ok(CreateIdempotent)
    );
    assert_eq!(RecoverNested::from_bytes(&RecoverNested.to_bytes().unwrap()), Ok(RecoverNested));
    assert_eq!(
        RecoverNested::from_bytes(&[0, 0, 0, 0]),
        Err(ErrorCode::Decode(DecodeError::MalformedTrailing))
    );
}

#[test]
fn unit_instructions_split_into_empty_views() {
    let IxArgs { decode, validate, run, cleanup } = Create::split_to_args(&Create);
    assert_eq!((decode, validate, run, cleanup), ((), (), (), ()));
    let args: IxArgs<RecoverNested> = Default::default();
    assert_eq!(format!("{:?}", args), "IxArgs { decode: (), validate: (), run: (), cleanup: () }");
    assert_eq!((args.decode, args.validate, args.run, args.cleanup), ((), (), (), ()));
}

#[test]
fn return_values_publish_their_raw_bytes() {
    assert_eq!(().to_bytes(), Vec::<u8>::new());
    assert_eq!([1u8, 2, 3, 4].to_bytes(), vec![1, 2, 3, 4]);
}

#[test]
fn prelude_brings_the_common_names() {
    let program: star_frame::prelude::Pubkey = AssociatedToken::ID;
    let context = star_frame::prelude::Context::new(&program);
    assert_eq!(context.program_id, program);
    assert_eq!(
        AssociatedTokenInstructionSet::dispatch(context, &create_accounts(), &[0]),
        Ok(Vec::new())
    );
}
