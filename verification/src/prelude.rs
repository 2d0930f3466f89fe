//! The names that a program built on this library uses most.
pub use crate::account_info::{AccountInfo, AccountMeta};
pub use crate::account_init::{CanInitAccount, CanInitSeeds, InitStage, InitStep};
pub use crate::account_set::{
    AccountCursor, AccountSetCleanup, AccountSetDecode, AccountSetValidate, Mut, Signer,
    SingleAccountSet,
};
pub use crate::context::{Context, Funder};
pub use crate::cpi::{cpi, CpiAccountSet, NestedCall, Transfer};
pub use crate::data::{decode_data, encode_data, InstructionData, TrailingData};
pub use crate::data_types::{KeyFor, OptionalKeyFor};
pub use crate::errors::{DecodeError, ErrorCode, ValidationError};
pub use crate::instruction::{
    Instruction, InstructionArgs, InstructionDiscriminant, InstructionSet, IxArgs, IxReturnType,
    ReturnData, StarFrameInstruction,
};
pub use crate::program::{Program, StarFrameProgram, System};
pub use crate::pubkey::{GetSeeds, Pubkey};
