//! The record of one sale offer and the states it passes through.

use vstd::prelude::*;
use crate::error::EscrowError;
use crate::identity::Identity;

verus! {

/// Where a listing stands. It starts `Open` and leaves that state once,
/// for good.
#[derive(Clone, Copy, Debug, PartialEq, Eq, Structural)]
pub enum ListingStatus {
    /// The lot is in custody and can be bought or withdrawn.
    Open,
    /// The lot was bought.
    Settled,
    /// The lot went back to the seller.
    Canceled,
}

/// What takes a listing out of `Open`.
#[derive(Clone, Copy, Debug, PartialEq, Eq, Structural)]
pub enum Exit {
    /// A buyer paid the price.
    Purchase,
    /// The lot was returned to the seller.
    Cancellation,
}

impl ListingStatus {
    /// The byte under which the status is stored.
    pub open spec fn code_of(self) -> u8 {
        match self {
            ListingStatus::Open => 0,
            ListingStatus::Settled => 1,
            ListingStatus::Canceled => 2,
        }
    }

    /// The state that `exit` leads to from this one, if it leads anywhere.
    pub open spec fn next(self, exit: Exit) -> Result<ListingStatus, EscrowError> {
        if self == ListingStatus::Open {
            match exit {
                Exit::Purchase => Ok(ListingStatus::Settled),
                Exit::Cancellation => Ok(ListingStatus::Canceled),
            }
        } else {
            Err(EscrowError::InvalidState)
        }
    }

    /// The byte under which the status is stored.
    pub fn code(&self) -> (r: u8)
        ensures
            r == self.code_of(),
    {
        match self {
            ListingStatus::Open => 0,
            ListingStatus::Settled => 1,
            ListingStatus::Canceled => 2,
        }
    }

    /// Reads a stored byte back; only 0, 1 and 2 stand for a status.
    pub fn from_code(code: u8) -> (r: Option<ListingStatus>)
        ensures
            code > 2 <==> r is None,
            r matches Some(s) ==> s.code_of() == code,
    {
        if code == 0 {
            Some(ListingStatus::Open)
        } else if code == 1 {
            Some(ListingStatus::Settled)
        } else if code == 2 {
            Some(ListingStatus::Canceled)
        } else {
            None
        }
    }

    /// Tells whether the listing can still be bought or withdrawn.
    pub fn is_open(&self) -> (r: bool)
        ensures
            r == (*self == ListingStatus::Open),
    {
        match self {
            ListingStatus::Open => true,
            _ => false,
        }
    }

    /// Takes the one step out of `Open`; every other state refuses.
    pub fn advance(self, exit: Exit) -> (r: Result<ListingStatus, EscrowError>)
        ensures
            r == self.next(exit),
    {
        match self {
            ListingStatus::Open => match exit {
                Exit::Purchase => Ok(ListingStatus::Settled),
                Exit::Cancellation => Ok(ListingStatus::Canceled),
            },
            _ => Err(EscrowError::InvalidState),
        }
    }
}

/// One sale offer: a seller's lot of an asset, locked at a price.
#[derive(Clone, Copy, Debug, PartialEq, Eq)]
pub struct Listing {
    /// Who owns the lot.
    pub seller: Identity,
    /// The kind of asset on sale.
    pub mint: Identity,
    /// What a buyer pays for the whole lot.
    pub price: u64,
    /// How many units are held in custody.
    pub quantity: u64,
    /// The time after which anyone may return the lot to the seller.
    pub expiry: i64,
    /// Where the listing stands.
    pub status: ListingStatus,
    /// The byte that completes the derivation of the custody authority.
    pub bump: u8,
    /// Tells apart the listings of one seller for one asset.
    pub nonce: u64,
}

/// The tag that starts the seeds of every listing.
pub open spec fn listing_tag() -> Seq<u8> {
    seq![108u8, 105u8, 115u8, 116u8, 105u8, 110u8, 103u8]
}

impl Listing {
    /// The size of a stored listing in bytes: a header of eight, then the
    /// fields one after the other.
    pub const LEN: usize = 106;

    /// The seeds from which the custody authority of this listing is
    /// derived: the tag, the seller, the asset, the nonce in little-endian
    /// order, and the bump.
    pub open spec fn seeds(self) -> Seq<Seq<u8>> {
        seq![
            listing_tag(),
            self.seller@,
            self.mint@,
            vstd::bytes::spec_u64_to_le_bytes(self.nonce),
            seq![self.bump],
        ]
    }

    /// The seeds from which the custody authority of this listing is derived.
    pub fn listing_seeds(&self) -> (r: Vec<Vec<u8>>)
        ensures
            r@.len() == 5,
            forall|i: int| 0 <= i < 5 ==> (#[trigger] r@[i])@ == self.seeds()[i],
    {
        let tag: Vec<u8> = vec![108u8, 105u8, 115u8, 116u8, 105u8, 110u8, 103u8];
        let seller: Vec<u8> = self.seller.to_vec();
        let mint: Vec<u8> = self.mint.to_vec();
        let nonce: Vec<u8> = vstd::bytes::u64_to_le_bytes(self.nonce);
        let bump: Vec<u8> = vec![self.bump];
        let r: Vec<Vec<u8>> = vec![tag, seller, mint, nonce, bump];
        proof {
            assert(tag@ =~= listing_tag());
            assert(bump@ =~= seq![self.bump]);
        }
        r
    }
}

} // verus!
