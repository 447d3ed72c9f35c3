//! The notices that the engine hands out after each successful operation.

use vstd::prelude::*;
use crate::identity::Identity;

verus! {

/// A lot went into custody and a listing was opened for it.
#[derive(Clone, Copy, Debug, PartialEq, Eq)]
pub struct ListingCreated {
    pub seller: Identity,
    pub listing: Identity,
    pub mint: Identity,
    pub price: u64,
    pub quantity: u64,
}

/// A buyer paid the price and took the lot.
#[derive(Clone, Copy, Debug, PartialEq, Eq)]
pub struct Purchased {
    pub listing: Identity,
    pub buyer: Identity,
    pub price: u64,
}

/// The lot went back to the seller.
#[derive(Clone, Copy, Debug, PartialEq, Eq)]
pub struct Canceled {
    pub listing: Identity,
    pub seller: Identity,
}

/// The administrator drew on the collected fees.
#[derive(Clone, Copy, Debug, PartialEq, Eq)]
pub struct FeeWithdrawn {
    pub admin: Identity,
    pub amount: u64,
}

} // verus!
