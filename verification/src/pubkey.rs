//! Addresses, and the addresses that a program derives from seeds.
use vstd::prelude::*;
use crate::errors::{ErrorCode, ValidationError};

verus! {

/// The address of an account or of a program.
pub type Pubkey = [u8; 32];

/// The outcome of a derivation: the address and its bump, or nothing where
/// the seeds derive no address.
pub type Derived = Option<(Pubkey, u8)>;

/// Whether two addresses hold the same bytes.
pub fn pubkey_eq(a: &Pubkey, b: &Pubkey) -> (same: bool)
    ensures
        same == (a@ == b@),
{
    let mut i: usize = 0;
    while i < 32
        invariant
            i <= 32,
            forall|j: int| 0 <= j < i ==> a@[j] == b@[j],
        decreases 32 - i,
    {
        if a[i] != b[i] {
            return false;
        }
        i += 1;
    }
    assert(a@ =~= b@);
    true
}

/// The address that the platform derives from `seeds` for the program at
/// `program_id`, with its bump: the address has no signing key, and only
/// that program can sign for it.
pub uninterp spec fn program_address(seeds: Seq<Seq<u8>>, program_id: Seq<u8>) -> (Seq<u8>, u8);

/// The bytes of each seed of a list.
pub open spec fn seeds_view(seeds: Seq<&[u8]>) -> Seq<Seq<u8>> {
    seeds.map_values(|seed: &[u8]| seed@)
}

/// Calls `pinocchio::pubkey::try_find_program_address`, which asks the
/// runtime for the address derived from `seeds` under `program_id` and its
/// bump. An answer is the derived address; whether there is an answer is
/// left open: the runtime gives none for seeds it does not accept, and a
/// build for another target than the chain gives none at all.
#[verifier::external_body]
fn try_find_program_address(seeds: &[&[u8]], program_id: &Pubkey) -> (derived: Derived)
    ensures
        derived matches Some(found) ==> found.0@ == program_address(
            seeds_view(seeds@),
            program_id@,
        ).0 && found.1 == program_address(seeds_view(seeds@), program_id@).1,
{
    pinocchio::pubkey::try_find_program_address(seeds, program_id)
}

/// Whether `derived` can be the answer to the derivation from `seeds`
/// under `program_id`: an answer is the derived address with its bump.
pub open spec fn is_derivation(seeds: Seq<Seq<u8>>, program_id: Seq<u8>, derived: Derived) -> bool {
    derived matches Some(found) ==> found.0@ == program_address(seeds, program_id).0 && found.1
        == program_address(seeds, program_id).1
}

/// Derives the address that the program at `program_id` controls for
/// `seeds`. An answer is the derived address and its bump; whether there is
/// an answer is up to the runtime.
pub fn find_program_address(seeds: &[&[u8]], program_id: &Pubkey) -> (derived: Derived)
    ensures
        is_derivation(seeds_view(seeds@), program_id@, derived),
{
    try_find_program_address(seeds, program_id)
}

/// A value that names the seeds of a derived address.
pub trait GetSeeds {
    /// The seeds, in the order in which they are hashed.
    spec fn seeds_spec(&self) -> Seq<Seq<u8>>;

    /// The seeds, in the order in which they are hashed.
    fn seeds(&self) -> (seeds: Vec<&[u8]>)
        ensures
            seeds_view(seeds@) == self.seeds_spec(),
    ;
}

/// What the comparison of an account's address with a derivation yields.
pub open spec fn check_derived_spec(actual: Seq<u8>, derived: Derived) -> Result<(), ErrorCode> {
    match derived {
        None => Err(ErrorCode::Validation(ValidationError::InvalidSeeds)),
        Some((address, _)) => if address@ == actual {
            Ok(())
        } else {
            Err(ErrorCode::Validation(ValidationError::AddressMismatch))
        },
    }
}

/// Accepts `actual` only if it is exactly the derived address. Seeds that
/// derive nothing are `InvalidSeeds`; any other address, however close its
/// seeds were to the right ones, is `AddressMismatch`.
pub fn check_derived(actual: &Pubkey, derived: &Derived) -> (checked: Result<(), ErrorCode>)
    ensures
        checked == check_derived_spec(actual@, *derived),
{
    match derived {
        None => Err(ErrorCode::Validation(ValidationError::InvalidSeeds)),
        Some((address, _)) => {
            if pubkey_eq(address, actual) {
                Ok(())
            } else {
                Err(ErrorCode::Validation(ValidationError::AddressMismatch))
            }
        },
    }
}

/// An address that differs from the derived one in a single byte is already
/// rejected as a mismatch.
pub proof fn lemma_other_address_rejected(actual: Seq<u8>, address: Pubkey, bump: u8, i: int)
    requires
        0 <= i < 32,
        actual.len() == 32,
        actual[i] != address@[i],
    ensures
        check_derived_spec(actual, Some((address, bump))) == Err::<(), ErrorCode>(
            ErrorCode::Validation(ValidationError::AddressMismatch),
        ),
{
}

} // verus!
