//! The single error type that a failed call reports.
use vstd::prelude::*;

verus! {

/// Why a payload could not be decoded.
#[derive(Clone, Copy, Debug, PartialEq, Eq, Structural)]
pub enum DecodeError {
    /// Fewer bytes were supplied than the fixed part needs.
    TooShort { expected: usize, actual: usize },
    /// The bytes after the fixed header are not a valid trailing value.
    MalformedTrailing,
}

/// The first constraint that an account failed to meet.
#[derive(Clone, Copy, Debug, PartialEq, Eq, Structural)]
pub enum ValidationError {
    /// The account is owned by another program than the declaration expects.
    OwnerMismatch,
    /// The declaration requires a signature that the account does not carry.
    MissingSigner,
    /// The declaration requires a writable account.
    NotWritable,
    /// The account's address is not the one the declaration derives.
    AddressMismatch,
    /// The seeds given do not derive an address, or seeds were given where
    /// none are accepted.
    InvalidSeeds,
}

/// Every way in which a call can fail. A call reports exactly one of these.
#[derive(Clone, Copy, Debug, PartialEq, Eq, Structural)]
pub enum ErrorCode {
    /// The payload is too short or its trailing part is malformed.
    Decode(DecodeError),
    /// The leading tag names no instruction of the set; the tag is carried.
    UnknownDiscriminant(u8),
    /// Fewer accounts remain than the declaration needs.
    AccountArity { expected: usize, got: usize },
    /// An account does not meet its declaration.
    Validation(ValidationError),
    /// The instruction's own logic failed with this code.
    Execution(u32),
    /// A post-condition failed after the instruction ran.
    Cleanup(u32),
    /// A nested call failed; the callee's code is carried unchanged.
    Invocation(u64),
    /// An account had to be funded but the context caches no funder.
    EmptyFunderCache,
    /// A minimum balance was needed but the context caches no rent.
    EmptyRentCache,
    /// A minimum balance does not fit the balance type.
    RentOverflow,
}

} // verus!
