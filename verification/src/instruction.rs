//! Instructions: how a payload becomes a typed instruction, and the stages
//! that every instruction runs through.
use vstd::prelude::*;
use crate::account_info::AccountInfo;
use crate::account_set::{
    arity_error, AccountCursor, AccountSetCleanup, AccountSetDecode, AccountSetValidate,
};
use crate::context::Context;
use crate::data::{
    decode_data_spec, encode_data_spec, fixed_bytes, lemma_decode_encode, split_discriminant,
    TrailingData,
};
use crate::errors::{DecodeError, ErrorCode};

verus! {

/// A closed set of instructions, each under a tag of one byte that no other
/// instruction of the set has.
pub trait InstructionSet {
    /// The type of the set's tags.
    type Discriminant;

    /// Whether an instruction of the set has the tag.
    spec fn has_tag(tag: u8) -> bool;

    /// Whether `result` is what the set yields for a payload with a tag of
    /// the set.
    spec fn dispatches(
        ctx: Context,
        accounts: Seq<AccountInfo>,
        data: Seq<u8>,
        result: Result<Seq<u8>, ErrorCode>,
    ) -> bool;

    /// Reads the tag at the front of the payload and runs the instruction
    /// that has it on the rest. A payload without a tag is `TooShort`; a tag
    /// that no instruction of the set has is `UnknownDiscriminant` with the
    /// tag, and no instruction runs.
    fn dispatch(ctx: Context, accounts: &[AccountInfo], instruction_data: &[u8]) -> (result:
        Result<Vec<u8>, ErrorCode>)
        ensures
            instruction_data@.len() == 0 ==> result == Err::<Vec<u8>, ErrorCode>(
                ErrorCode::Decode(DecodeError::TooShort { expected: 1, actual: 0 }),
            ),
            instruction_data@.len() > 0 && !Self::has_tag(instruction_data@[0]) ==> result
                == Err::<Vec<u8>, ErrorCode>(ErrorCode::UnknownDiscriminant(instruction_data@[0])),
            instruction_data@.len() > 0 && Self::has_tag(instruction_data@[0])
                ==> Self::dispatches(ctx, accounts@, instruction_data@, result_view(result)),
    ;
}

/// What `dispatch` promises of the set `S`, as one predicate: a payload
/// without a tag is `TooShort`; a tag that no instruction of the set has is
/// `UnknownDiscriminant` with the tag, whatever follows it; any other
/// payload yields what the instruction under its tag yields.
pub open spec fn dispatched<S: InstructionSet + ?Sized>(
    ctx: Context,
    accounts: Seq<AccountInfo>,
    data: Seq<u8>,
    result: Result<Seq<u8>, ErrorCode>,
) -> bool {
    if data.len() == 0 {
        result == Err::<Seq<u8>, ErrorCode>(
            ErrorCode::Decode(DecodeError::TooShort { expected: 1, actual: 0 }),
        )
    } else if !S::has_tag(data[0]) {
        result == Err::<Seq<u8>, ErrorCode>(ErrorCode::UnknownDiscriminant(data[0]))
    } else {
        S::dispatches(ctx, accounts, data, result)
    }
}

/// A payload whose tag no instruction of the set has enters the handler of
/// no member `T` of the set: the tag is not the member's, and whatever
/// `T::process_from_raw` would yield for the rest of the payload, the call
/// ends with `UnknownDiscriminant` and the tag. There is no handler to fall
/// back on.
pub proof fn lemma_unknown_tag_enters_no_handler<S, T>(
    ctx: Context,
    accounts: Seq<AccountInfo>,
    data: Seq<u8>,
    result: Result<Seq<u8>, ErrorCode>,
) where S: InstructionSet, T: Instruction + InstructionDiscriminant<S>
    requires
        dispatched::<S>(ctx, accounts, data, result),
        data.len() > 0,
        !S::has_tag(data[0]),
    ensures
        data[0] != T::DISCRIMINANT,
        forall|handled: Result<Seq<u8>, ErrorCode>|
            T::processes(ctx, accounts, data.subrange(1, data.len() as int), handled) ==> result
                == Err::<Seq<u8>, ErrorCode>(ErrorCode::UnknownDiscriminant(data[0])),
        result == Err::<Seq<u8>, ErrorCode>(ErrorCode::UnknownDiscriminant(data[0])),
{
    T::lemma_tag_in_set();
}

/// A tag that no instruction of the set has never reaches an instruction:
/// the call ends with `UnknownDiscriminant` and the tag.
pub proof fn lemma_unknown_tag_is_rejected<S: InstructionSet + ?Sized>(
    ctx: Context,
    accounts: Seq<AccountInfo>,
    data: Seq<u8>,
    result: Result<Seq<u8>, ErrorCode>,
)
    requires
        dispatched::<S>(ctx, accounts, data, result),
        data.len() > 0,
        !S::has_tag(data[0]),
    ensures
        result == Err::<Seq<u8>, ErrorCode>(ErrorCode::UnknownDiscriminant(data[0])),
{
}

/// The set without instructions: every tag is unknown to it.
impl InstructionSet for () {
    type Discriminant = ();

    open spec fn has_tag(tag: u8) -> bool {
        false
    }

    open spec fn dispatches(
        ctx: Context,
        accounts: Seq<AccountInfo>,
        data: Seq<u8>,
        result: Result<Seq<u8>, ErrorCode>,
    ) -> bool {
        false
    }

    fn dispatch(ctx: Context, accounts: &[AccountInfo], instruction_data: &[u8]) -> (result:
        Result<Vec<u8>, ErrorCode>) {
        match split_discriminant(instruction_data) {
            Err(e) => Err(e),
            Ok((tag, _)) => Err(ErrorCode::UnknownDiscriminant(tag)),
        }
    }
}

/// The tag that an instruction has in the set `IxSet`. One instruction may be
/// in several sets, under another tag in each.
pub trait InstructionDiscriminant<IxSet: InstructionSet> {
    /// The instruction's tag in the set.
    const DISCRIMINANT: u8;

    /// The instruction's tag is one of the set's tags.
    proof fn lemma_tag_in_set()
        ensures
            IxSet::has_tag(Self::DISCRIMINANT),
    ;

    /// The tag as it stands at the front of a payload.
    #[must_use]
    fn discriminant_bytes() -> (bytes: Vec<u8>)
        ensures
            bytes@ == seq![Self::DISCRIMINANT],
    {
        let tag: [u8; 1] = [Self::DISCRIMINANT];
        fixed_bytes(&tag)
    }
}

/// The four views of one decoded instruction, one for each stage. A view
/// borrows from the instruction and is handed to its stage alone.
#[derive(Debug)]
pub struct IxArgs<'a, T: InstructionArgs> {
    pub decode: T::DecodeArg<'a>,
    pub validate: T::ValidateArg<'a>,
    pub run: T::RunArg<'a>,
    pub cleanup: T::CleanupArg<'a>,
}

impl<'a, T> Default for IxArgs<'a, T> where
    T: InstructionArgs,
    T::DecodeArg<'a>: Default,
    T::ValidateArg<'a>: Default,
    T::RunArg<'a>: Default,
    T::CleanupArg<'a>: Default,
 {
    /// The views that hold the default of each stage's argument.
    fn default() -> (args: Self)
        ensures
            call_ensures(<T::DecodeArg<'a> as Default>::default, (), args.decode),
            call_ensures(<T::ValidateArg<'a> as Default>::default, (), args.validate),
            call_ensures(<T::RunArg<'a> as Default>::default, (), args.run),
            call_ensures(<T::CleanupArg<'a> as Default>::default, (), args.cleanup),
    {
        IxArgs {
            decode: Default::default(),
            validate: Default::default(),
            run: Default::default(),
            cleanup: Default::default(),
        }
    }
}

/// An instruction that splits into the arguments of its stages.
pub trait InstructionArgs: Sized {
    /// What the instruction tells the decoding of its accounts.
    type DecodeArg<'a>;

    /// What the instruction tells the validation of its accounts.
    type ValidateArg<'a>;

    /// What the instruction tells its own logic.
    type RunArg<'a>;

    /// What the instruction tells the cleanup of its accounts.
    type CleanupArg<'a>;

    /// The four views of `r`.
    spec fn split_spec<'a>(r: &'a Self) -> IxArgs<'a, Self>;

    /// Splits the instruction into the views of its stages. The instruction
    /// itself is not changed.
    fn split_to_args<'a>(r: &'a Self) -> (args: IxArgs<'a, Self>)
        ensures
            args == Self::split_spec(r),
    ;
}

/// A value that an instruction returns to its caller as raw bytes.
pub trait ReturnData {
    /// The bytes that are published for the value; none for an empty value.
    spec fn bytes_spec(&self) -> Seq<u8>;

    /// The bytes that are published for the value.
    fn to_bytes(&self) -> (bytes: Vec<u8>)
        ensures
            bytes@ == self.bytes_spec(),
    ;
}

impl ReturnData for () {
    open spec fn bytes_spec(&self) -> Seq<u8> {
        Seq::empty()
    }

    fn to_bytes(&self) -> (bytes: Vec<u8>) {
        Vec::new()
    }
}

impl<const N: usize> ReturnData for [u8; N] {
    open spec fn bytes_spec(&self) -> Seq<u8> {
        self@
    }

    fn to_bytes(&self) -> (bytes: Vec<u8>) {
        fixed_bytes(self)
    }
}

/// Names the value inside the `Result` that an instruction's logic returns.
pub trait IxReturnType {
    type ReturnType;
}

impl<T, E> IxReturnType for Result<T, E> {
    type ReturnType = T;
}

/// What an instruction's own logic leaves behind.
pub struct Processed<S, R> {
    /// The accounts after the logic ran.
    pub accounts: S,
    /// The context after the logic ran.
    pub ctx: Context,
    /// What the logic returned.
    pub outcome: Result<R, ErrorCode>,
}

/// An instruction with a fixed-layout payload, an account set and logic of
/// its own, which runs through the stages of `process_from_raw`.
pub trait StarFrameInstruction: InstructionArgs {
    /// What the instruction returns to its caller.
    type ReturnType: ReturnData;

    /// The accounts that the instruction needs.
    type Accounts<'decode>: for <'arg> AccountSetDecode<'decode, Self::DecodeArg<'arg>>
        + for <'arg> AccountSetValidate<Self::ValidateArg<'arg>>
        + for <'arg> AccountSetCleanup<Self::CleanupArg<'arg>>;

    /// The value that the instruction carries after its fixed header.
    type Trailing: TrailingData;

    /// The size of the instruction's fixed header.
    spec fn header_size() -> nat;

    /// The bytes of the instruction's fixed header, as they stand in a
    /// payload.
    spec fn header(&self) -> Seq<u8>;

    /// The value that the instruction carries after its header.
    spec fn trailing(&self) -> <Self::Trailing as View>::V;

    /// The header of every instruction has the size of the type's header.
    proof fn lemma_header_size(&self)
        ensures
            self.header().len() == Self::header_size(),
    ;

    /// Whether `done` is what the logic leaves behind when it runs on
    /// `accounts` with `run_arg` in the context `ctx`.
    spec fn processed<'a>(
        accounts: Self::Accounts<'a>,
        run_arg: Self::RunArg<'_>,
        ctx: Context,
        done: Processed<Self::Accounts<'a>, Self::ReturnType>,
    ) -> bool;

    /// Writes the instruction as the payload that follows its tag: the
    /// header, then the trailing value in its encoding. `None` where the
    /// trailing value has no encoding.
    fn to_bytes(&self) -> (bytes: Option<Vec<u8>>)
        ensures
            match bytes {
                Some(bytes) => encode_data_spec::<Self::Trailing>(self.header(), self.trailing())
                    == Some(bytes@),
                None => encode_data_spec::<Self::Trailing>(self.header(), self.trailing())
                    is None,
            },
    ;

    /// Reads the instruction from the payload that follows the tag. The
    /// payload decodes exactly where its header and trailing value do, to
    /// an instruction with that header, bit for bit, and that trailing
    /// value; it fails exactly where they fail, with their error.
    fn from_bytes(data: &[u8]) -> (decoded: Result<Self, ErrorCode>)
        ensures
            match decoded {
                Ok(ix) => decode_data_spec::<Self::Trailing>(Self::header_size(), data@) == Ok::<
                    (Seq<u8>, <Self::Trailing as View>::V),
                    ErrorCode,
                >((ix.header(), ix.trailing())),
                Err(e) => decode_data_spec::<Self::Trailing>(Self::header_size(), data@) == Err::<
                    (Seq<u8>, <Self::Trailing as View>::V),
                    ErrorCode,
                >(e),
            },
    ;

    /// Runs the instruction's own logic on its decoded and validated
    /// accounts.
    fn process(
        accounts: &mut Self::Accounts<'_>,
        run_arg: Self::RunArg<'_>,
        ctx: &mut Context,
    ) -> (returned: Result<Self::ReturnType, ErrorCode>)
        ensures
            Self::processed(
                *old(accounts),
                run_arg,
                *old(ctx),
                Processed { accounts: *final(accounts), ctx: *final(ctx), outcome: returned },
            ),
    ;
}

/// Whether `decoded` is what the payload `data` decodes to for the
/// instruction `T`: an instruction with the header and the trailing value
/// that the payload holds, or the error of their decoding.
pub open spec fn decodes<T: StarFrameInstruction>(
    data: Seq<u8>,
    decoded: Result<T, ErrorCode>,
) -> bool {
    match decoded {
        Ok(ix) => decode_data_spec::<T::Trailing>(T::header_size(), data) == Ok::<
            (Seq<u8>, <T::Trailing as View>::V),
            ErrorCode,
        >((ix.header(), ix.trailing())),
        Err(e) => decode_data_spec::<T::Trailing>(T::header_size(), data) == Err::<
            (Seq<u8>, <T::Trailing as View>::V),
            ErrorCode,
        >(e),
    }
}

/// The payload that carries the instruction after its tag, where its
/// trailing value can be encoded.
pub open spec fn encoded<T: StarFrameInstruction>(ix: &T) -> Option<Seq<u8>> {
    encode_data_spec::<T::Trailing>(ix.header(), ix.trailing())
}

/// The bytes that a finished call publishes, or the error it ends with.
pub open spec fn result_view(result: Result<Vec<u8>, ErrorCode>) -> Result<Seq<u8>, ErrorCode> {
    match result {
        Ok(bytes) => Ok(bytes@),
        Err(e) => Err(e),
    }
}

/// Whether `result` is what the stages yield for the decoded instruction
/// `ix`, a fresh context and the accounts of the call. The stages run in
/// order and the first failure ends the call: the accounts are decoded from
/// the front of the list, validated, handed to the instruction's logic and
/// cleaned up; what the logic returned is published as bytes.
pub open spec fn runs<'a, T: StarFrameInstruction>(
    ix: &T,
    ctx: Context,
    accounts: Seq<AccountInfo>,
    result: Result<Seq<u8>, ErrorCode>,
) -> bool {
    let args = T::split_spec(ix);
    let need = <T::Accounts<'a> as AccountSetDecode<'a, T::DecodeArg<'_>>>::arity(&args.decode);
    if accounts.len() < need {
        result == Err::<Seq<u8>, ErrorCode>(arity_error(need, accounts.len()))
    } else {
        exists|set: T::Accounts<'a>| #[trigger]
            <T::Accounts<'a> as AccountSetDecode<'a, T::DecodeArg<'_>>>::is_decoded(
                accounts.subrange(0, need as int),
                &args.decode,
                set,
            ) && runs_decoded_accounts::<T>(set, args, ctx, result)
    }
}

/// Whether `result` is what validation, logic and cleanup yield for the
/// decoded accounts.
pub open spec fn runs_decoded_accounts<'a, T: StarFrameInstruction>(
    set: T::Accounts<'a>,
    args: IxArgs<'_, T>,
    ctx: Context,
    result: Result<Seq<u8>, ErrorCode>,
) -> bool {
    exists|valid: Result<(), ErrorCode>| #[trigger]
        set.validates(&args.validate, &ctx, valid) && match valid {
            Err(e) => result == Err::<Seq<u8>, ErrorCode>(e),
            Ok(()) => runs_validated::<T>(set, args, ctx, result),
        }
}

/// Whether `result` is what the logic and the cleanup yield for accounts
/// that passed validation.
pub open spec fn runs_validated<'a, T: StarFrameInstruction>(
    set: T::Accounts<'a>,
    args: IxArgs<'_, T>,
    ctx: Context,
    result: Result<Seq<u8>, ErrorCode>,
) -> bool {
    exists|done: Processed<T::Accounts<'a>, T::ReturnType>| #[trigger]
        T::processed(set, args.run, ctx, done) && match done.outcome {
            Err(e) => result == Err::<Seq<u8>, ErrorCode>(e),
            Ok(returned) => exists|clean: Result<(), ErrorCode>| #[trigger]
                done.accounts.cleans(&args.cleanup, &done.ctx, clean) && match clean {
                    Err(e) => result == Err::<Seq<u8>, ErrorCode>(e),
                    Ok(()) => result == Ok::<Seq<u8>, ErrorCode>(returned.bytes_spec()),
                },
        }
}

/// Runs a decoded instruction through its stages: split, decode the
/// accounts, validate them, run the logic, clean up, and hand back the bytes
/// to publish. No stage runs after one has failed.
pub fn run_instruction<'a, T: StarFrameInstruction>(
    ix: &T,
    ctx: Context,
    accounts: &'a [AccountInfo],
) -> (result: Result<Vec<u8>, ErrorCode>)
    ensures
        runs::<T>(ix, ctx, accounts@, result_view(result)),
{
    let mut ctx = ctx;
    let args = T::split_to_args(ix);
    let ghost views = args;
    let IxArgs { decode, validate, run, cleanup } = args;
    let mut cursor = AccountCursor::new(accounts);
    let mut account_set = match <T::Accounts<'a>>::decode_accounts(&mut cursor, &decode, &ctx) {
        Ok(set) => set,
        Err(e) => {
            return Err(e);
        },
    };
    match account_set.validate_accounts(&validate, &ctx) {
        Ok(()) => {},
        Err(e) => {
            return Err(e);
        },
    }
    let outcome = T::process(&mut account_set, run, &mut ctx);
    let ghost done = Processed { accounts: account_set, ctx, outcome };
    let returned = match outcome {
        Ok(returned) => returned,
        Err(e) => {
            return Err(e);
        },
    };
    let clean = account_set.cleanup_accounts(&cleanup, &ctx);
    assert(done.accounts.cleans(&views.cleanup, &done.ctx, clean));
    match clean {
        Ok(()) => {},
        Err(e) => {
            return Err(e);
        },
    }
    Ok(returned.to_bytes())
}

/// Whether `result` is what a call of the instruction `T` yields, given
/// what its payload decoded to: the decoding error, or what the stages
/// yield for the decoded instruction.
pub open spec fn runs_decoded<T: StarFrameInstruction>(
    decoded: Result<T, ErrorCode>,
    ctx: Context,
    accounts: Seq<AccountInfo>,
    result: Result<Seq<u8>, ErrorCode>,
) -> bool {
    match decoded {
        Err(e) => result == Err::<Seq<u8>, ErrorCode>(e),
        Ok(ix) => runs::<T>(&ix, ctx, accounts, result),
    }
}

/// An instruction that can be run from the raw input of a call.
pub trait Instruction {
    /// Whether `result` is what the call yields.
    spec fn processes(
        ctx: Context,
        accounts: Seq<AccountInfo>,
        data: Seq<u8>,
        result: Result<Seq<u8>, ErrorCode>,
    ) -> bool;

    /// Runs the instruction on the payload that follows the tag and on the
    /// accounts of the call, and hands back the bytes to publish.
    fn process_from_raw(ctx: Context, accounts: &[AccountInfo], instruction_data: &[u8]) -> (result:
        Result<Vec<u8>, ErrorCode>)
        ensures
            Self::processes(ctx, accounts@, instruction_data@, result_view(result)),
    ;
}

impl<T: StarFrameInstruction> Instruction for T {
    open spec fn processes(
        ctx: Context,
        accounts: Seq<AccountInfo>,
        data: Seq<u8>,
        result: Result<Seq<u8>, ErrorCode>,
    ) -> bool {
        exists|decoded: Result<T, ErrorCode>| #[trigger]
            decodes::<T>(data, decoded) && runs_decoded::<T>(decoded, ctx, accounts, result)
    }

    fn process_from_raw(ctx: Context, accounts: &[AccountInfo], instruction_data: &[u8]) -> (result:
        Result<Vec<u8>, ErrorCode>) {
        let decoded = T::from_bytes(instruction_data);
        let result = match &decoded {
            Err(e) => Err(*e),
            Ok(ix) => run_instruction::<T>(ix, ctx, accounts),
        };
        assert(decodes::<T>(instruction_data@, decoded) && runs_decoded::<T>(
            decoded,
            ctx,
            accounts@,
            result_view(result),
        ));
        result
    }
}

/// A payload shorter than the header of `T` yields `TooShort` with both
/// lengths: no instruction is built and no stage runs.
pub proof fn lemma_short_payload_rejected<T: StarFrameInstruction>(
    ctx: Context,
    accounts: Seq<AccountInfo>,
    data: Seq<u8>,
    result: Result<Seq<u8>, ErrorCode>,
)
    requires
        T::processes(ctx, accounts, data, result),
    ensures
        data.len() < T::header_size() ==> result == Err::<Seq<u8>, ErrorCode>(
            ErrorCode::Decode(
                DecodeError::TooShort {
                    expected: T::header_size() as usize,
                    actual: data.len() as usize,
                },
            ),
        ),
{
    let decoded = choose|decoded: Result<T, ErrorCode>| #[trigger]
        decodes::<T>(data, decoded) && runs_decoded::<T>(decoded, ctx, accounts, result);
}

/// What a payload decodes to is settled by the payload: two decodings of
/// it fail with the same error, or give instructions with the same header
/// and the same trailing value.
pub proof fn lemma_decoding_is_unique<T: StarFrameInstruction>(
    data: Seq<u8>,
    first: Result<T, ErrorCode>,
    second: Result<T, ErrorCode>,
)
    requires
        decodes::<T>(data, first),
        decodes::<T>(data, second),
    ensures
        first matches Err(e) ==> second == Err::<T, ErrorCode>(e),
        first matches Ok(ix) ==> second matches Ok(other) && other.header() == ix.header()
            && other.trailing() == ix.trailing(),
{
}

/// A payload of exactly the header's size decodes: its bytes are the
/// header, and the trailing value is the empty value of its type. The
/// codec of the trailing value has no part in it.
pub proof fn lemma_header_alone_decodes<T: StarFrameInstruction>(
    data: Seq<u8>,
    decoded: Result<T, ErrorCode>,
)
    requires
        decodes::<T>(data, decoded),
        data.len() == T::header_size(),
    ensures
        decoded matches Ok(ix) && ix.header() == data && ix.trailing()
            == <T::Trailing as TrailingData>::empty_value(),
{
}

/// Round trip: the payload that an instruction is written as decodes, and
/// what it decodes to has the instruction's header, bit for bit, and its
/// trailing value.
pub proof fn lemma_instruction_round_trip<T: StarFrameInstruction>(
    ix: T,
    decoded: Result<T, ErrorCode>,
)
    requires
        encoded(&ix) matches Some(bytes) && decodes::<T>(bytes, decoded),
    ensures
        decoded matches Ok(back) && back.header() == ix.header() && back.trailing()
            == ix.trailing(),
{
    ix.lemma_header_size();
    lemma_decode_encode::<T::Trailing>(T::header_size(), ix.header(), ix.trailing());
}

/// What `process_from_raw` yields for a payload of exactly the header's
/// size is what the stages yield for an instruction whose header is the
/// payload, bit for bit, and whose trailing value is the empty value of its
/// type.
pub proof fn lemma_process_from_raw_header_alone<T: StarFrameInstruction>(
    ctx: Context,
    accounts: Seq<AccountInfo>,
    data: Seq<u8>,
    result: Result<Seq<u8>, ErrorCode>,
)
    requires
        T::processes(ctx, accounts, data, result),
        data.len() == T::header_size(),
    ensures
        exists|ix: T| #[trigger]
            runs::<T>(&ix, ctx, accounts, result) && ix.header() == data && ix.trailing()
                == <T::Trailing as TrailingData>::empty_value(),
{
    let decoded = choose|decoded: Result<T, ErrorCode>| #[trigger]
        decodes::<T>(data, decoded) && runs_decoded::<T>(decoded, ctx, accounts, result);
    lemma_header_alone_decodes::<T>(data, decoded);
    let ix = decoded->Ok_0;
    assert(runs::<T>(&ix, ctx, accounts, result));
}

/// What `process_from_raw` yields for the payload that an instruction is
/// written as is what the stages yield for an instruction with the same
/// header, bit for bit, and the same trailing value.
pub proof fn lemma_process_from_raw_round_trip<T: StarFrameInstruction>(
    written: T,
    ctx: Context,
    accounts: Seq<AccountInfo>,
    result: Result<Seq<u8>, ErrorCode>,
)
    requires
        encoded(&written) matches Some(data) && T::processes(ctx, accounts, data, result),
    ensures
        exists|ix: T| #[trigger]
            runs::<T>(&ix, ctx, accounts, result) && ix.header() == written.header()
                && ix.trailing() == written.trailing(),
{
    let data = encoded(&written)->Some_0;
    let decoded = choose|decoded: Result<T, ErrorCode>| #[trigger]
        decodes::<T>(data, decoded) && runs_decoded::<T>(decoded, ctx, accounts, result);
    lemma_instruction_round_trip::<T>(written, decoded);
    let ix = decoded->Ok_0;
    assert(runs::<T>(&ix, ctx, accounts, result));
}

} // verus!
