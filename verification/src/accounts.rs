//! The holdings that an operation works on, and how they must belong
//! together.
//!
//! Each bundle names the holdings of one operation. The holdings of one
//! bundle stand for distinct accounts of the ledger.

use vstd::prelude::*;
use crate::identity::Identity;
use crate::listing::Listing;

verus! {

/// A holding of one asset kind on the ledger.
#[derive(Clone, Copy, Debug, PartialEq, Eq)]
pub struct TokenAccount {
    /// Where the holding stands on the ledger.
    pub address: Identity,
    /// Who may move the balance.
    pub owner: Identity,
    /// The kind of asset held.
    pub mint: Identity,
    /// The balance, in the smallest unit of the asset.
    pub amount: u64,
    /// Set once the holding has been closed; a closed holding takes part in
    /// nothing.
    pub closed: bool,
}

impl TokenAccount {
    /// The holding is in use, belongs to `owner` and holds `mint`.
    pub open spec fn holds_for(self, owner: Identity, mint: Identity) -> bool {
        !self.closed && self.owner == owner && self.mint == mint
    }

    /// Tells whether the holding is in use, belongs to `owner` and holds
    /// `mint`.
    pub fn is_held_for(&self, owner: &Identity, mint: &Identity) -> (r: bool)
        ensures
            r == self.holds_for(*owner, *mint),
    {
        !self.closed && self.owner.same_as(owner) && self.mint.same_as(mint)
    }

    /// Tells whether two holdings stand at different places on the ledger.
    pub fn is_apart_from(&self, other: &TokenAccount) -> (r: bool)
        ensures
            r == (self.address != other.address),
    {
        !self.address.same_as(&other.address)
    }
}

/// An order to move a balance from one holding to another, given under an
/// authority. The amount is named where the order is placed.
#[derive(Clone, Copy, Debug, PartialEq, Eq)]
pub struct Transfer {
    /// The holding that pays.
    pub from: Identity,
    /// The holding that receives.
    pub to: Identity,
    /// Under whose authority the balance moves.
    pub authority: Identity,
}

/// An order to close an empty holding and hand what its storage is worth to
/// a destination.
#[derive(Clone, Copy, Debug, PartialEq, Eq)]
pub struct CloseAccount {
    /// The holding to close.
    pub account: Identity,
    /// Who takes what the storage is worth.
    pub destination: Identity,
    /// Under whose authority the holding is closed.
    pub authority: Identity,
}

/// One step that the ledger takes for an operation.
#[derive(Clone, Copy, Debug, PartialEq, Eq)]
pub enum Instruction {
    /// Move the given amount as the order says.
    Move(Transfer, u64),
    /// Close a holding as the order says.
    Close(CloseAccount),
}

/// What it takes to open a listing.
#[derive(Clone, Copy, Debug, PartialEq, Eq)]
pub struct CreateListing {
    /// Who puts the lot on sale.
    pub seller: Identity,
    /// The identity under which the new listing will be known.
    pub listing_key: Identity,
    /// The byte that completes the derivation of the listing's identity, if
    /// one was found.
    pub bump: Option<u8>,
    /// The kind of asset on sale.
    pub mint: Identity,
    /// The seller's holding, from which the lot is taken.
    pub seller_token_account: TokenAccount,
    /// The custody holding of the new listing.
    pub escrow_token_account: TokenAccount,
}

impl CreateListing {
    /// The seller's holding is the seller's own and of the asset on sale;
    /// the custody holding is empty, of the same asset, and under the
    /// listing's authority.
    pub open spec fn wired(self) -> bool {
        &&& self.seller_token_account.holds_for(self.seller, self.mint)
        &&& self.escrow_token_account.holds_for(self.listing_key, self.mint)
        &&& self.escrow_token_account.amount == 0
        &&& self.seller_token_account.address != self.escrow_token_account.address
    }

    /// Tells whether the holdings belong together as `wired` says.
    pub fn is_wired(&self) -> (r: bool)
        ensures
            r == self.wired(),
    {
        self.seller_token_account.is_held_for(&self.seller, &self.mint)
            && self.escrow_token_account.is_held_for(&self.listing_key, &self.mint)
            && self.escrow_token_account.amount == 0
            && self.seller_token_account.is_apart_from(&self.escrow_token_account)
    }

    /// The order that moves the lot into custody, given by the seller.
    pub fn transfer_to_escrow_context(&self) -> (r: Transfer)
        ensures
            r == (Transfer {
                from: self.seller_token_account.address,
                to: self.escrow_token_account.address,
                authority: self.seller,
            }),
    {
        Transfer {
            from: self.seller_token_account.address,
            to: self.escrow_token_account.address,
            authority: self.seller,
        }
    }
}

/// What it takes to buy a listed lot.
#[derive(Clone, Copy, Debug, PartialEq, Eq)]
pub struct Buy {
    /// Who pays the price and takes the lot.
    pub buyer: Identity,
    /// The identity of the listing.
    pub listing_key: Identity,
    /// The listing itself.
    pub listing: Listing,
    /// The buyer's holding from which the price is paid.
    pub buyer_payment_account: TokenAccount,
    /// The buyer's holding that takes the lot.
    pub buyer_receive_account: TokenAccount,
    /// The seller's holding that takes the proceeds.
    pub seller_receiving_account: TokenAccount,
    /// The custody holding of the listing.
    pub escrow_token_account: TokenAccount,
    /// The holding in which the protocol's fees collect.
    pub fee_vault: TokenAccount,
}

impl Buy {
    /// The buyer's two holdings are the buyer's own, the receiving holding
    /// is the seller's, the custody holding is under the listing's authority
    /// and holds exactly the lot, all are of the listing's asset, and no two
    /// are the same holding.
    pub open spec fn wired(self) -> bool {
        &&& self.buyer_payment_account.holds_for(self.buyer, self.listing.mint)
        &&& self.buyer_receive_account.holds_for(self.buyer, self.listing.mint)
        &&& self.seller_receiving_account.holds_for(self.listing.seller, self.listing.mint)
        &&& self.escrow_token_account.holds_for(self.listing_key, self.listing.mint)
        &&& self.escrow_token_account.amount == self.listing.quantity
        &&& !self.fee_vault.closed
        &&& self.fee_vault.mint == self.listing.mint
        &&& self.apart()
    }

    /// No two of the five holdings stand at the same place on the ledger.
    pub open spec fn apart(self) -> bool {
        &&& self.buyer_payment_account.address != self.buyer_receive_account.address
        &&& self.buyer_payment_account.address != self.seller_receiving_account.address
        &&& self.buyer_payment_account.address != self.escrow_token_account.address
        &&& self.buyer_payment_account.address != self.fee_vault.address
        &&& self.buyer_receive_account.address != self.seller_receiving_account.address
        &&& self.buyer_receive_account.address != self.escrow_token_account.address
        &&& self.buyer_receive_account.address != self.fee_vault.address
        &&& self.seller_receiving_account.address != self.escrow_token_account.address
        &&& self.seller_receiving_account.address != self.fee_vault.address
        &&& self.escrow_token_account.address != self.fee_vault.address
    }

    /// Tells whether no two of the five holdings stand at the same place.
    pub fn is_apart(&self) -> (r: bool)
        ensures
            r == self.apart(),
    {
        self.buyer_payment_account.is_apart_from(&self.buyer_receive_account)
            && self.buyer_payment_account.is_apart_from(&self.seller_receiving_account)
            && self.buyer_payment_account.is_apart_from(&self.escrow_token_account)
            && self.buyer_payment_account.is_apart_from(&self.fee_vault)
            && self.buyer_receive_account.is_apart_from(&self.seller_receiving_account)
            && self.buyer_receive_account.is_apart_from(&self.escrow_token_account)
            && self.buyer_receive_account.is_apart_from(&self.fee_vault)
            && self.seller_receiving_account.is_apart_from(&self.escrow_token_account)
            && self.seller_receiving_account.is_apart_from(&self.fee_vault)
            && self.escrow_token_account.is_apart_from(&self.fee_vault)
    }

    /// The order that pays the seller, given by the buyer.
    pub fn pay_seller_context(&self) -> (r: Transfer)
        ensures
            r == (Transfer {
                from: self.buyer_payment_account.address,
                to: self.seller_receiving_account.address,
                authority: self.buyer,
            }),
    {
        Transfer {
            from: self.buyer_payment_account.address,
            to: self.seller_receiving_account.address,
            authority: self.buyer,
        }
    }

    /// The order that pays the fee, given by the buyer.
    pub fn pay_fee_context(&self) -> (r: Transfer)
        ensures
            r == (Transfer {
                from: self.buyer_payment_account.address,
                to: self.fee_vault.address,
                authority: self.buyer,
            }),
    {
        Transfer {
            from: self.buyer_payment_account.address,
            to: self.fee_vault.address,
            authority: self.buyer,
        }
    }

    /// The order that releases the lot to the buyer, given under the
    /// listing's own authority.
    pub fn escrow_to_buyer_context(&self) -> (r: Transfer)
        ensures
            r == (Transfer {
                from: self.escrow_token_account.address,
                to: self.buyer_receive_account.address,
                authority: self.listing_key,
            }),
    {
        Transfer {
            from: self.escrow_token_account.address,
            to: self.buyer_receive_account.address,
            authority: self.listing_key,
        }
    }

    /// The order that closes the custody holding in favour of the seller's
    /// receiving holding, given under the listing's own authority.
    pub fn close_escrow_context(&self) -> (r: CloseAccount)
        ensures
            r == (CloseAccount {
                account: self.escrow_token_account.address,
                destination: self.seller_receiving_account.address,
                authority: self.listing_key,
            }),
    {
        CloseAccount {
            account: self.escrow_token_account.address,
            destination: self.seller_receiving_account.address,
            authority: self.listing_key,
        }
    }

    /// The seeds from which the listing's authority is derived.
    pub fn listing_seeds(&self) -> (r: Vec<Vec<u8>>)
        ensures
            r@.len() == 5,
            forall|i: int| 0 <= i < 5 ==> (#[trigger] r@[i])@ == self.listing.seeds()[i],
    {
        self.listing.listing_seeds()
    }

    /// Tells whether the holdings belong together as `wired` says.
    pub fn is_wired(&self) -> (r: bool)
        ensures
            r == self.wired(),
    {
        self.buyer_payment_account.is_held_for(&self.buyer, &self.listing.mint)
            && self.buyer_receive_account.is_held_for(&self.buyer, &self.listing.mint)
            && self.seller_receiving_account.is_held_for(&self.listing.seller, &self.listing.mint)
            && self.escrow_token_account.is_held_for(&self.listing_key, &self.listing.mint)
            && self.escrow_token_account.amount == self.listing.quantity
            && !self.fee_vault.closed
            && self.fee_vault.mint.same_as(&self.listing.mint)
            && self.is_apart()
    }
}

/// What it takes to return a listed lot to its seller.
#[derive(Clone, Copy, Debug, PartialEq, Eq)]
pub struct Cancel {
    /// Who asks for the return.
    pub authority: Identity,
    /// The identity of the listing.
    pub listing_key: Identity,
    /// The listing itself.
    pub listing: Listing,
    /// The seller named by the caller.
    pub seller: Identity,
    /// The seller's holding that takes the lot back.
    pub seller_token_account: TokenAccount,
    /// The custody holding of the listing.
    pub escrow_token_account: TokenAccount,
}

impl Cancel {
    /// The seller named is the listing's, the returning holding is the
    /// seller's, the custody holding is under the listing's authority and
    /// holds exactly the lot, and both are of the listing's asset.
    pub open spec fn wired(self) -> bool {
        &&& self.seller == self.listing.seller
        &&& self.seller_token_account.holds_for(self.seller, self.listing.mint)
        &&& self.escrow_token_account.holds_for(self.listing_key, self.listing.mint)
        &&& self.escrow_token_account.amount == self.listing.quantity
        &&& self.seller_token_account.address != self.escrow_token_account.address
    }

    /// Tells whether the holdings belong together as `wired` says.
    pub fn is_wired(&self) -> (r: bool)
        ensures
            r == self.wired(),
    {
        self.seller.same_as(&self.listing.seller)
            && self.seller_token_account.is_held_for(&self.seller, &self.listing.mint)
            && self.escrow_token_account.is_held_for(&self.listing_key, &self.listing.mint)
            && self.escrow_token_account.amount == self.listing.quantity
            && self.seller_token_account.is_apart_from(&self.escrow_token_account)
    }

    /// The order that returns the lot to the seller, given under the
    /// listing's own authority.
    pub fn escrow_to_seller_context(&self) -> (r: Transfer)
        ensures
            r == (Transfer {
                from: self.escrow_token_account.address,
                to: self.seller_token_account.address,
                authority: self.listing_key,
            }),
    {
        Transfer {
            from: self.escrow_token_account.address,
            to: self.seller_token_account.address,
            authority: self.listing_key,
        }
    }

    /// The order that closes the custody holding in favour of the seller,
    /// given under the listing's own authority.
    pub fn close_escrow_context(&self) -> (r: CloseAccount)
        ensures
            r == (CloseAccount {
                account: self.escrow_token_account.address,
                destination: self.seller,
                authority: self.listing_key,
            }),
    {
        CloseAccount {
            account: self.escrow_token_account.address,
            destination: self.seller,
            authority: self.listing_key,
        }
    }

    /// The seeds from which the listing's authority is derived.
    pub fn listing_seeds(&self) -> (r: Vec<Vec<u8>>)
        ensures
            r@.len() == 5,
            forall|i: int| 0 <= i < 5 ==> (#[trigger] r@[i])@ == self.listing.seeds()[i],
    {
        self.listing.listing_seeds()
    }
}

/// What it takes to draw on the collected fees.
#[derive(Clone, Copy, Debug, PartialEq, Eq)]
pub struct WithdrawFee {
    /// Who asks for the fees.
    pub admin: Identity,
    /// The caller's holding that takes the fees.
    pub admin_fee_account: TokenAccount,
    /// The holding in which the protocol's fees collect.
    pub fee_vault: TokenAccount,
    /// The authority under which the fee holding stands.
    pub fee_vault_authority: Identity,
}

impl WithdrawFee {
    /// The receiving holding is the caller's own and of the asset that the
    /// fee holding collects, and the fee holding stands under its authority.
    pub open spec fn wired(self) -> bool {
        &&& self.admin_fee_account.holds_for(self.admin, self.fee_vault.mint)
        &&& !self.fee_vault.closed
        &&& self.fee_vault.owner == self.fee_vault_authority
        &&& self.admin_fee_account.address != self.fee_vault.address
    }

    /// Tells whether the holdings belong together as `wired` says.
    pub fn is_wired(&self) -> (r: bool)
        ensures
            r == self.wired(),
    {
        self.admin_fee_account.is_held_for(&self.admin, &self.fee_vault.mint)
            && !self.fee_vault.closed
            && self.fee_vault.owner.same_as(&self.fee_vault_authority)
            && self.admin_fee_account.is_apart_from(&self.fee_vault)
    }

    /// The order that moves fees to the administrator, given under the fee
    /// holding's own authority.
    pub fn vault_to_admin_context(&self) -> (r: Transfer)
        ensures
            r == (Transfer {
                from: self.fee_vault.address,
                to: self.admin_fee_account.address,
                authority: self.fee_vault_authority,
            }),
    {
        Transfer {
            from: self.fee_vault.address,
            to: self.admin_fee_account.address,
            authority: self.fee_vault_authority,
        }
    }
}

} // verus!
