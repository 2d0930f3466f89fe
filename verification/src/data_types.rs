//! Addresses that say what lives at them.
use vstd::prelude::*;
use core::marker::PhantomData;
use crate::pubkey::Pubkey;

verus! {

/// The address of an account of the kind `T`.
#[derive(Debug, PartialEq, Eq)]
pub struct KeyFor<T> {
    pub pubkey: Pubkey,
    pub kind: PhantomData<T>,
}

impl<T> Clone for KeyFor<T> {
    fn clone(&self) -> (copy: Self)
        ensures
            copy == *self,
    {
        KeyFor { pubkey: self.pubkey, kind: PhantomData }
    }
}

impl<T> Copy for KeyFor<T> {

}

impl<T> KeyFor<T> {
    /// The address itself.
    pub open spec fn key(&self) -> Seq<u8> {
        self.pubkey@
    }

    /// Marks `pubkey` as the address of an account of the kind `T`.
    pub fn new(pubkey: Pubkey) -> (key: Self)
        ensures
            key == (KeyFor::<T> { pubkey, kind: PhantomData }),
    {
        KeyFor { pubkey, kind: PhantomData }
    }

    /// The address itself.
    pub fn pubkey(&self) -> (pubkey: &Pubkey)
        ensures
            *pubkey == self.pubkey,
    {
        &self.pubkey
    }
}

/// The address of an account of the kind `T`, where there may be none.
#[derive(Debug, PartialEq, Eq)]
pub struct OptionalKeyFor<T> {
    pub pubkey: Option<Pubkey>,
    pub kind: PhantomData<T>,
}

impl<T> Clone for OptionalKeyFor<T> {
    fn clone(&self) -> (copy: Self)
        ensures
            copy == *self,
    {
        OptionalKeyFor { pubkey: self.pubkey, kind: PhantomData }
    }
}

impl<T> Copy for OptionalKeyFor<T> {

}

impl<T> OptionalKeyFor<T> {
    /// The address, where there is one.
    pub open spec fn key(&self) -> Option<Seq<u8>> {
        match self.pubkey {
            Some(pubkey) => Some(pubkey@),
            None => None,
        }
    }

    /// No address.
    pub fn none() -> (key: Self)
        ensures
            key == (OptionalKeyFor::<T> { pubkey: None, kind: PhantomData }),
    {
        OptionalKeyFor { pubkey: None, kind: PhantomData }
    }

    /// The address, where there is one.
    pub fn pubkey(&self) -> (pubkey: Option<&Pubkey>)
        ensures
            match self.pubkey {
                Some(held) => pubkey == Some(&held),
                None => pubkey is None,
            },
    {
        match &self.pubkey {
            Some(held) => Some(held),
            None => None,
        }
    }
}

impl<T> From<KeyFor<T>> for OptionalKeyFor<T> {
    fn from(key: KeyFor<T>) -> (optional: Self)
    {
        OptionalKeyFor { pubkey: Some(key.pubkey), kind: PhantomData }
    }
}

impl<T> vstd::std_specs::convert::FromSpecImpl<KeyFor<T>> for OptionalKeyFor<T> {
    open spec fn obeys_from_spec() -> bool {
        true
    }

    open spec fn from_spec(key: KeyFor<T>) -> Self {
        OptionalKeyFor { pubkey: Some(key.pubkey), kind: PhantomData }
    }
}

} // verus!
