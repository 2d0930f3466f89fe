//! The associated token program: the one token account that a wallet has
//! for a mint, at an address derived from both.
use vstd::prelude::*;
use crate::data_types::KeyFor;
use crate::program::StarFrameProgram;
use crate::pubkey::{
    find_program_address, is_derivation, program_address, seeds_view, Derived, GetSeeds, Pubkey,
};
use crate::token::{MintAccount, Token};

pub mod instructions;
pub mod state;

verus! {

/// The associated token program.
#[derive(Debug, Clone, Copy, PartialEq, Eq, Ord, PartialOrd)]
pub struct AssociatedToken;

impl StarFrameProgram for AssociatedToken {
    type InstructionSet = instructions::AssociatedTokenInstructionSet;

    type AccountDiscriminant = ();

    const ID: Pubkey = [
        140, 151, 37, 143, 78, 36, 137, 241, 187, 61, 16, 41, 20, 142, 13, 131, 11, 90, 19, 153, 218,
        255, 16, 132, 4, 142, 123, 216, 219, 233, 248, 89,
    ];
}

/// The seeds of the associated token account of `wallet` for `mint`: the
/// wallet, the token program and the mint.
pub open spec fn associated_token_seeds(wallet: Seq<u8>, mint: Seq<u8>) -> Seq<Seq<u8>> {
    seq![wallet, Token::ID@, mint]
}

/// The address of the associated token account of `wallet` for `mint`, and
/// its bump.
pub open spec fn associated_token_address(wallet: Seq<u8>, mint: Seq<u8>) -> (Seq<u8>, u8) {
    program_address(associated_token_seeds(wallet, mint), AssociatedToken::ID@)
}

/// Whether `derived` can be the answer to the derivation of the associated
/// token account of `wallet` for `mint`: an answer is the derived address
/// with its bump.
pub open spec fn is_associated_token_derivation(
    wallet: Seq<u8>,
    mint: Seq<u8>,
    derived: Derived,
) -> bool {
    is_derivation(associated_token_seeds(wallet, mint), AssociatedToken::ID@, derived)
}

impl AssociatedToken {
    /// Finds the address of the associated token account of `wallet` for
    /// `mint`. An answer is the address derived from the wallet, the token
    /// program and the mint under this program.
    pub fn find_address(wallet: &Pubkey, mint: &KeyFor<MintAccount>) -> (address: Option<Pubkey>)
        ensures
            address matches Some(found) ==> found@ == associated_token_address(
                wallet@,
                mint.key(),
            ).0,
    {
        match Self::find_address_with_bump(wallet, mint) {
            Some((address, _)) => Some(address),
            None => None,
        }
    }

    /// Finds the address of the associated token account of `wallet` for
    /// `mint`, with its bump.
    pub fn find_address_with_bump(wallet: &Pubkey, mint: &KeyFor<MintAccount>) -> (derived: Derived)
        ensures
            is_associated_token_derivation(wallet@, mint.key(), derived),
    {
        let token = Token::ID;
        let program = AssociatedToken::ID;
        let seeds: [&[u8]; 3] = [wallet.as_slice(), token.as_slice(), mint.pubkey().as_slice()];
        assert(seeds_view(seeds@) =~= associated_token_seeds(wallet@, mint.key()));
        find_program_address(seeds.as_slice(), &program)
    }
}

/// The seeds of an associated token account, as values.
#[derive(Debug, Clone, PartialEq, Eq)]
pub struct AssociatedTokenSeeds {
    pub wallet: Pubkey,
    pub mint: KeyFor<MintAccount>,
}

impl GetSeeds for AssociatedTokenSeeds {
    open spec fn seeds_spec(&self) -> Seq<Seq<u8>> {
        associated_token_seeds(self.wallet@, self.mint.key())
    }

    fn seeds(&self) -> (seeds: Vec<&[u8]>) {
        let token: &'static Pubkey = &Token::ID;
        let mut seeds: Vec<&[u8]> = Vec::new();
        seeds.push(self.wallet.as_slice());
        seeds.push(token.as_slice());
        seeds.push(self.mint.pubkey().as_slice());
        seeds
    }
}

} // verus!
