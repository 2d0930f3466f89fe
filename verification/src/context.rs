//! What one call caches while it runs.
use vstd::prelude::*;
use pinocchio::sysvars::rent::Rent;
use crate::errors::ErrorCode;
use crate::pubkey::Pubkey;

verus! {

/// The rent parameters of the platform, as pinocchio lays them out. The
/// type is declared with its fields: the rate is read to keep the
/// computation of a minimum balance in range.
#[verifier::external_type_specification]
pub struct ExRent(Rent);

/// The bytes that the platform adds to an account's data when it computes
/// the account's rent.
pub const ACCOUNT_STORAGE_OVERHEAD: u64 = 128;

/// Who pays when an account has to be brought up to its minimum balance.
#[derive(Clone, Debug, PartialEq, Eq)]
pub struct Funder {
    /// The paying account's address.
    pub key: Pubkey,
    /// Whether the payer can also create the account. One that cannot is only
    /// asked to top up a balance.
    pub can_create_account: bool,
    /// The seeds with which the program signs for the payer, where the payer
    /// is an address of the program's own.
    pub signer_seeds: Option<Vec<Vec<u8>>>,
}

/// The cache of one call: made when the call starts, dropped when it ends.
#[derive(Clone, Debug)]
pub struct Context {
    /// The program that is running.
    pub program_id: Pubkey,
    /// The platform's rent parameters, once they have been read.
    pub rent: Option<Rent>,
    /// The payer for accounts that the call creates, once one is known.
    pub funder: Option<Funder>,
    /// The seeds of the derived addresses that sign the nested calls of this
    /// call, one set for each address, in the order in which they were added.
    pub signer_seeds: Vec<Vec<Vec<u8>>>,
}

/// Whether pinocchio can compute the minimum balance for `data_len` bytes at
/// `rate` without leaving the balance type, whatever the exemption threshold.
pub open spec fn rent_fits(rate: u64, data_len: usize) -> bool {
    (ACCOUNT_STORAGE_OVERHEAD + data_len) * rate * 2 <= u64::MAX && ACCOUNT_STORAGE_OVERHEAD
        + data_len <= u64::MAX
}

/// The balance that exempts an account of `data_len` bytes from rent under
/// the parameters `rent`, as pinocchio computes it from the rate and the
/// exemption threshold.
pub uninterp spec fn rent_minimum(rent: Rent, data_len: usize) -> u64;

/// Calls pinocchio's `Rent::minimum_balance`, the balance below which an
/// account of `data_len` bytes owes rent. Its products are taken in `u64`, so
/// the call is made only where they fit. The result depends on the
/// parameters and the length alone; what it is for given parameters is not
/// said here, since it goes by the exemption threshold, a floating-point
/// number.
#[verifier::external_body]
#[allow(deprecated)]
fn rent_minimum_balance(rent: &Rent, data_len: usize) -> (minimum: u64)
    requires
        rent_fits(rent.lamports_per_byte_year, data_len),
    ensures
        minimum == rent_minimum(*rent, data_len),
{
    rent.minimum_balance(data_len)
}

/// What is missing from `current` to reach `minimum`; zero where nothing is.
pub open spec fn shortfall_spec(minimum: u64, current: u64) -> u64 {
    if minimum > current {
        (minimum - current) as u64
    } else {
        0
    }
}

/// The amount to transfer so that a balance of `current` reaches `minimum`.
/// It is zero exactly when the balance already meets the minimum.
pub fn rent_shortfall(minimum: u64, current: u64) -> (shortfall: u64)
    ensures
        shortfall == shortfall_spec(minimum, current),
        shortfall == 0 <==> current >= minimum,
        current + shortfall >= minimum,
{
    minimum.saturating_sub(current)
}

impl Context {
    /// What asking for the minimum balance of `data_len` bytes yields:
    /// `EmptyRentCache` without cached parameters, `RentOverflow` where the
    /// computation leaves the balance type, and otherwise the balance that
    /// pinocchio computes from the cached parameters.
    #[allow(deprecated)]
    pub open spec fn minimum_balance_spec(&self, data_len: usize) -> Result<u64, ErrorCode> {
        match self.rent {
            None => Err(ErrorCode::EmptyRentCache),
            Some(rent) => if rent_fits(rent.lamports_per_byte_year, data_len) {
                Ok(rent_minimum(rent, data_len))
            } else {
                Err(ErrorCode::RentOverflow)
            },
        }
    }

    /// The cache at the start of a call of `program_id`: nothing read yet.
    pub fn new(program_id: &Pubkey) -> (ctx: Context)
        ensures
            ctx.program_id == *program_id,
            ctx.rent is None,
            ctx.funder is None,
            ctx.signer_seeds@.len() == 0,
    {
        Context { program_id: *program_id, rent: None, funder: None, signer_seeds: Vec::new() }
    }

    /// Caches the platform's rent parameters.
    pub fn set_rent(&mut self, rent: Rent)
        ensures
            final(self).rent == Some(rent),
            final(self).program_id == old(self).program_id,
            final(self).funder == old(self).funder,
            final(self).signer_seeds == old(self).signer_seeds,
    {
        self.rent = Some(rent);
    }

    /// Caches the payer for accounts that the call creates.
    pub fn set_funder(&mut self, funder: Funder)
        ensures
            final(self).funder == Some(funder),
            final(self).program_id == old(self).program_id,
            final(self).rent == old(self).rent,
            final(self).signer_seeds == old(self).signer_seeds,
    {
        self.funder = Some(funder);
    }

    /// Adds the seeds of one more derived address that signs the nested
    /// calls of this call. The seeds are kept byte for byte, bump included:
    /// the callee derives the address from them again.
    pub fn add_signer_seeds(&mut self, seeds: Vec<Vec<u8>>)
        ensures
            final(self).signer_seeds@ == old(self).signer_seeds@.push(seeds),
            final(self).program_id == old(self).program_id,
            final(self).rent == old(self).rent,
            final(self).funder == old(self).funder,
    {
        self.signer_seeds.push(seeds);
    }

    /// The cached payer, or `EmptyFunderCache` where none was cached.
    pub fn get_funder(&self) -> (funder: Result<&Funder, ErrorCode>)
        ensures
            match self.funder {
                Some(cached) => funder == Ok::<&Funder, ErrorCode>(&cached),
                None => funder == Err::<&Funder, ErrorCode>(ErrorCode::EmptyFunderCache),
            },
    {
        match &self.funder {
            Some(cached) => Ok(cached),
            None => Err(ErrorCode::EmptyFunderCache),
        }
    }

    /// The balance that exempts an account of `data_len` bytes from rent, as
    /// pinocchio computes it from the cached parameters. It is
    /// `EmptyRentCache` where no parameters were cached and `RentOverflow`
    /// where the computation would leave the balance type; otherwise it is
    /// the balance that pinocchio computes.
    #[allow(deprecated)]
    pub fn minimum_balance(&self, data_len: usize) -> (minimum: Result<u64, ErrorCode>)
        ensures
            minimum == self.minimum_balance_spec(data_len),
    {
        match &self.rent {
            None => Err(ErrorCode::EmptyRentCache),
            Some(rent) => {
                let rate: u64 = rent.lamports_per_byte_year;
                let fits = match (data_len as u64).checked_add(ACCOUNT_STORAGE_OVERHEAD) {
                    None => false,
                    Some(bytes) => match bytes.checked_mul(rate) {
                        None => false,
                        Some(yearly) => yearly.checked_mul(2).is_some(),
                    },
                };
                if fits {
                    Ok(rent_minimum_balance(rent, data_len))
                } else {
                    Err(ErrorCode::RentOverflow)
                }
            },
        }
    }
}

} // verus!
