//! Why an operation of the settlement engine is refused.

use vstd::prelude::*;

verus! {

/// A rule of the escrow that an operation broke.
#[derive(Clone, Copy, Debug, PartialEq, Eq, Structural)]
pub enum EscrowError {
    /// The listing is not in the state the operation needs.
    InvalidState,
    /// The caller is not entitled to the operation.
    Unauthorized,
    /// The fee arithmetic left the 64-bit range.
    Overflow,
    /// A listing must lock a positive quantity.
    InvalidQuantity,
    /// A listing must ask a positive price.
    InvalidPrice,
}

/// Every way in which an operation can be refused: a broken rule of the
/// escrow, or a condition of the accounts handed to it. A refused operation
/// changes nothing.
#[derive(Clone, Copy, Debug, PartialEq, Eq, Structural)]
pub enum Failure {
    /// A rule of the escrow was broken.
    Rule(EscrowError),
    /// The accounts handed in do not belong together as the operation needs.
    AccountConstraint,
    /// No derivation byte was supplied for the new listing.
    MissingBump,
    /// A paying account holds less than it has to hand over.
    InsufficientFunds,
    /// A receiving account cannot hold what it is due.
    BalanceOverflow,
}

impl EscrowError {
    /// The text of the message, as a sequence of characters.
    pub open spec fn message_text(self) -> Seq<char> {
        match self {
            EscrowError::InvalidState => "Listing is not in correct state"@,
            EscrowError::Unauthorized => "Unauthorized"@,
            EscrowError::Overflow => "Overflow"@,
            EscrowError::InvalidQuantity => "Invalid quantity"@,
            EscrowError::InvalidPrice => "Invalid price"@,
        }
    }

    /// The message shown to a caller.
    pub fn message(&self) -> (r: &'static str)
        ensures
            r@ == self.message_text(),
    {
        match self {
            EscrowError::InvalidState => "Listing is not in correct state",
            EscrowError::Unauthorized => "Unauthorized",
            EscrowError::Overflow => "Overflow",
            EscrowError::InvalidQuantity => "Invalid quantity",
            EscrowError::InvalidPrice => "Invalid price",
        }
    }
}

} // verus!
