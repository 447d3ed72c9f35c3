//! The four operations of the engine. Each one either runs to its end or
//! changes nothing.

use vstd::prelude::*;
use crate::accounts::{
    Buy, Cancel, CloseAccount, CreateListing, Instruction, TokenAccount, Transfer, WithdrawFee,
};
use crate::config::{Config, BPS_DENOMINATOR};
use crate::error::{EscrowError, Failure};
use crate::events::{Canceled, FeeWithdrawn, ListingCreated, Purchased};
use crate::identity::Identity;
use crate::listing::{Exit, Listing, ListingStatus};

verus! {

/// The fee on `price` at `fee_bps` basis points, rounded down.
pub open spec fn fee_of(price: u64, fee_bps: u16) -> int {
    (price * fee_bps) / 10_000
}

/// How `price` divides between the seller and the protocol: the seller's
/// share first, the fee second. There is no division where the product of
/// price and rate leaves the 64-bit range, or where the fee is more than the
/// price.
pub open spec fn split_of(price: u64, fee_bps: u16) -> Result<(u64, u64), EscrowError> {
    if price * fee_bps > u64::MAX || fee_of(price, fee_bps) > price {
        Err(EscrowError::Overflow)
    } else {
        Ok(((price - fee_of(price, fee_bps)) as u64, fee_of(price, fee_bps) as u64))
    }
}

/// Divides `price` between the seller and the protocol.
pub fn split_payment(price: u64, fee_bps: u16) -> (r: Result<(u64, u64), EscrowError>)
    ensures
        r == split_of(price, fee_bps),
{
    let product: u64 = match price.checked_mul(fee_bps as u64) {
        Some(p) => p,
        None => {
            return Err(EscrowError::Overflow);
        },
    };
    let fee: u64 = match product.checked_div(BPS_DENOMINATOR) {
        Some(f) => f,
        None => {
            return Err(EscrowError::Overflow);
        },
    };
    match price.checked_sub(fee) {
        Some(seller_amount) => Ok((seller_amount, fee)),
        None => Err(EscrowError::Overflow),
    }
}

/// Who may return a lot to its seller at the time `now`: the seller at any
/// time, anyone once the expiry has passed.
pub open spec fn may_cancel(listing: Listing, caller: Identity, now: i64) -> bool {
    caller == listing.seller || now > listing.expiry
}

/// Tells whether `caller` may return the lot of `listing` at the time `now`.
pub fn is_cancel_authorized(listing: &Listing, caller: &Identity, now: i64) -> (r: bool)
    ensures
        r == may_cancel(*listing, *caller, now),
{
    caller.same_as(&listing.seller) || now > listing.expiry
}

/// Why a purchase is refused, if it is.
pub open spec fn buy_failure(ctx: Buy, config: Config) -> Option<Failure> {
    let split = split_of(ctx.listing.price, config.fee_bps);
    if ctx.listing.status != ListingStatus::Open {
        Some(Failure::Rule(EscrowError::InvalidState))
    } else if split is Err {
        Some(Failure::Rule(EscrowError::Overflow))
    } else if !ctx.wired() {
        Some(Failure::AccountConstraint)
    } else if ctx.buyer_payment_account.amount < ctx.listing.price {
        Some(Failure::InsufficientFunds)
    } else if ctx.seller_receiving_account.amount + split->Ok_0.0 > u64::MAX
        || ctx.fee_vault.amount + split->Ok_0.1 > u64::MAX
        || ctx.buyer_receive_account.amount + ctx.listing.quantity > u64::MAX {
        Some(Failure::BalanceOverflow)
    } else {
        None
    }
}

/// The listing and the holdings after a purchase: the buyer has paid the
/// price, of which the seller has its share and the fee holding the fee; the
/// buyer has the lot; the custody holding is empty and closed.
pub open spec fn after_buy(ctx: Buy, config: Config) -> Buy {
    let split = split_of(ctx.listing.price, config.fee_bps)->Ok_0;
    Buy {
        listing: Listing { status: ListingStatus::Settled, ..ctx.listing },
        buyer_payment_account: TokenAccount {
            amount: (ctx.buyer_payment_account.amount - ctx.listing.price) as u64,
            ..ctx.buyer_payment_account
        },
        seller_receiving_account: TokenAccount {
            amount: (ctx.seller_receiving_account.amount + split.0) as u64,
            ..ctx.seller_receiving_account
        },
        fee_vault: TokenAccount {
            amount: (ctx.fee_vault.amount + split.1) as u64,
            ..ctx.fee_vault
        },
        buyer_receive_account: TokenAccount {
            amount: (ctx.buyer_receive_account.amount + ctx.listing.quantity) as u64,
            ..ctx.buyer_receive_account
        },
        escrow_token_account: TokenAccount {
            amount: 0,
            closed: true,
            ..ctx.escrow_token_account
        },
        ..ctx
    }
}

/// The steps that the ledger takes for a purchase, in order: the buyer pays
/// the seller's share, then the fee; the lot leaves custody for the buyer;
/// the custody holding is closed.
pub open spec fn buy_steps(ctx: Buy, config: Config) -> Seq<Instruction> {
    let split = split_of(ctx.listing.price, config.fee_bps)->Ok_0;
    seq![
        Instruction::Move(
            Transfer {
                from: ctx.buyer_payment_account.address,
                to: ctx.seller_receiving_account.address,
                authority: ctx.buyer,
            },
            split.0,
        ),
        Instruction::Move(
            Transfer {
                from: ctx.buyer_payment_account.address,
                to: ctx.fee_vault.address,
                authority: ctx.buyer,
            },
            split.1,
        ),
        Instruction::Move(
            Transfer {
                from: ctx.escrow_token_account.address,
                to: ctx.buyer_receive_account.address,
                authority: ctx.listing_key,
            },
            ctx.listing.quantity,
        ),
        Instruction::Close(
            CloseAccount {
                account: ctx.escrow_token_account.address,
                destination: ctx.seller_receiving_account.address,
                authority: ctx.listing_key,
            },
        ),
    ]
}

/// Settles a listing: the buyer pays the price, which is divided between
/// the seller and the fee holding, and takes the lot out of custody. Hands
/// back the steps for the ledger and the notice of the purchase.
pub fn buy(ctx: &mut Buy, config: &Config) -> (r: Result<(Vec<Instruction>, Purchased), Failure>)
    ensures
        match r {
            Ok((steps, event)) => {
                &&& buy_failure(*old(ctx), *config) is None
                &&& *final(ctx) == after_buy(*old(ctx), *config)
                &&& steps@ == buy_steps(*old(ctx), *config)
                &&& event == (Purchased {
                    listing: old(ctx).listing_key,
                    buyer: old(ctx).buyer,
                    price: old(ctx).listing.price,
                })
            },
            Err(e) => buy_failure(*old(ctx), *config) == Some(e) && *final(ctx) == *old(ctx),
        },
{
    let settled = match ctx.listing.status.advance(Exit::Purchase) {
        Ok(s) => s,
        Err(e) => {
            return Err(Failure::Rule(e));
        },
    };
    let (seller_amount, fee) = match split_payment(ctx.listing.price, config.fee_bps) {
        Ok(shares) => shares,
        Err(e) => {
            return Err(Failure::Rule(e));
        },
    };
    if !ctx.is_wired() {
        return Err(Failure::AccountConstraint);
    }
    let buyer_left: u64 = match ctx.buyer_payment_account.amount.checked_sub(ctx.listing.price) {
        Some(v) => v,
        None => {
            return Err(Failure::InsufficientFunds);
        },
    };
    let seller_has: u64 = match ctx.seller_receiving_account.amount.checked_add(seller_amount) {
        Some(v) => v,
        None => {
            return Err(Failure::BalanceOverflow);
        },
    };
    let vault_has: u64 = match ctx.fee_vault.amount.checked_add(fee) {
        Some(v) => v,
        None => {
            return Err(Failure::BalanceOverflow);
        },
    };
    let buyer_has: u64 = match ctx.buyer_receive_account.amount.checked_add(ctx.listing.quantity) {
        Some(v) => v,
        None => {
            return Err(Failure::BalanceOverflow);
        },
    };
    let steps: Vec<Instruction> = vec![
        Instruction::Move(ctx.pay_seller_context(), seller_amount),
        Instruction::Move(ctx.pay_fee_context(), fee),
        Instruction::Move(ctx.escrow_to_buyer_context(), ctx.listing.quantity),
        Instruction::Close(ctx.close_escrow_context()),
    ];
    proof {
        assert(steps@ =~= buy_steps(*old(ctx), *config));
    }
    ctx.listing.status = settled;
    ctx.buyer_payment_account.amount = buyer_left;
    ctx.seller_receiving_account.amount = seller_has;
    ctx.fee_vault.amount = vault_has;
    ctx.buyer_receive_account.amount = buyer_has;
    ctx.escrow_token_account.amount = 0;
    ctx.escrow_token_account.closed = true;
    Ok((steps, Purchased { listing: ctx.listing_key, buyer: ctx.buyer, price: ctx.listing.price }))
}

/// Why a return of the lot at the time `now` is refused, if it is.
pub open spec fn cancel_failure(ctx: Cancel, now: i64) -> Option<Failure> {
    if ctx.listing.status != ListingStatus::Open {
        Some(Failure::Rule(EscrowError::InvalidState))
    } else if !may_cancel(ctx.listing, ctx.authority, now) {
        Some(Failure::Rule(EscrowError::Unauthorized))
    } else if !ctx.wired() {
        Some(Failure::AccountConstraint)
    } else if ctx.seller_token_account.amount + ctx.listing.quantity > u64::MAX {
        Some(Failure::BalanceOverflow)
    } else {
        None
    }
}

/// The listing and the holdings after the lot has gone back: the seller has
/// the lot, the custody holding is empty and closed.
pub open spec fn after_cancel(ctx: Cancel) -> Cancel {
    Cancel {
        listing: Listing { status: ListingStatus::Canceled, ..ctx.listing },
        seller_token_account: TokenAccount {
            amount: (ctx.seller_token_account.amount + ctx.listing.quantity) as u64,
            ..ctx.seller_token_account
        },
        escrow_token_account: TokenAccount {
            amount: 0,
            closed: true,
            ..ctx.escrow_token_account
        },
        ..ctx
    }
}

/// The steps that the ledger takes for the return of a lot, in order: the
/// lot leaves custody for the seller; the custody holding is closed.
pub open spec fn cancel_steps(ctx: Cancel) -> Seq<Instruction> {
    seq![
        Instruction::Move(
            Transfer {
                from: ctx.escrow_token_account.address,
                to: ctx.seller_token_account.address,
                authority: ctx.listing_key,
            },
            ctx.listing.quantity,
        ),
        Instruction::Close(
            CloseAccount {
                account: ctx.escrow_token_account.address,
                destination: ctx.seller,
                authority: ctx.listing_key,
            },
        ),
    ]
}

/// Unwinds a listing at the time `now`: the lot goes back to the seller.
/// Hands back the steps for the ledger and the notice of the return.
pub fn cancel(ctx: &mut Cancel, now: i64) -> (r: Result<(Vec<Instruction>, Canceled), Failure>)
    ensures
        match r {
            Ok((steps, event)) => {
                &&& cancel_failure(*old(ctx), now) is None
                &&& *final(ctx) == after_cancel(*old(ctx))
                &&& steps@ == cancel_steps(*old(ctx))
                &&& event == (Canceled {
                    listing: old(ctx).listing_key,
                    seller: old(ctx).listing.seller,
                })
            },
            Err(e) => cancel_failure(*old(ctx), now) == Some(e) && *final(ctx) == *old(ctx),
        },
{
    let canceled = match ctx.listing.status.advance(Exit::Cancellation) {
        Ok(s) => s,
        Err(e) => {
            return Err(Failure::Rule(e));
        },
    };
    if !is_cancel_authorized(&ctx.listing, &ctx.authority, now) {
        return Err(Failure::Rule(EscrowError::Unauthorized));
    }
    if !ctx.is_wired() {
        return Err(Failure::AccountConstraint);
    }
    let seller_has: u64 = match ctx.seller_token_account.amount.checked_add(ctx.listing.quantity) {
        Some(v) => v,
        None => {
            return Err(Failure::BalanceOverflow);
        },
    };
    let steps: Vec<Instruction> = vec![
        Instruction::Move(ctx.escrow_to_seller_context(), ctx.listing.quantity),
        Instruction::Close(ctx.close_escrow_context()),
    ];
    proof {
        assert(steps@ =~= cancel_steps(*old(ctx)));
    }
    ctx.listing.status = canceled;
    ctx.seller_token_account.amount = seller_has;
    ctx.escrow_token_account.amount = 0;
    ctx.escrow_token_account.closed = true;
    Ok((steps, Canceled { listing: ctx.listing_key, seller: ctx.listing.seller }))
}

/// Why the opening of a listing is refused, if it is.
pub open spec fn create_failure(ctx: CreateListing, price: u64, quantity: u64) -> Option<Failure> {
    if quantity == 0 {
        Some(Failure::Rule(EscrowError::InvalidQuantity))
    } else if price == 0 {
        Some(Failure::Rule(EscrowError::InvalidPrice))
    } else if !ctx.wired() {
        Some(Failure::AccountConstraint)
    } else if ctx.seller_token_account.amount < quantity {
        Some(Failure::InsufficientFunds)
    } else if ctx.bump is None {
        Some(Failure::MissingBump)
    } else {
        None
    }
}

/// The holdings after a listing was opened: the lot has moved from the
/// seller's holding into custody.
pub open spec fn after_create(ctx: CreateListing, quantity: u64) -> CreateListing {
    CreateListing {
        seller_token_account: TokenAccount {
            amount: (ctx.seller_token_account.amount - quantity) as u64,
            ..ctx.seller_token_account
        },
        escrow_token_account: TokenAccount { amount: quantity, ..ctx.escrow_token_account },
        ..ctx
    }
}

/// The listing that is opened.
pub open spec fn opened_listing(
    ctx: CreateListing,
    price: u64,
    quantity: u64,
    expiry: i64,
    nonce: u64,
) -> Listing {
    Listing {
        seller: ctx.seller,
        mint: ctx.mint,
        price,
        quantity,
        expiry,
        status: ListingStatus::Open,
        bump: ctx.bump->Some_0,
        nonce,
    }
}

/// The step that the ledger takes for a new listing: the lot moves from the
/// seller into custody.
pub open spec fn create_steps(ctx: CreateListing, quantity: u64) -> Seq<Instruction> {
    seq![
        Instruction::Move(
            Transfer {
                from: ctx.seller_token_account.address,
                to: ctx.escrow_token_account.address,
                authority: ctx.seller,
            },
            quantity,
        ),
    ]
}

/// What the opening of a listing hands back.
#[derive(Clone, Debug, PartialEq, Eq)]
pub struct Opening {
    /// The record of the offer.
    pub listing: Listing,
    /// The steps for the ledger.
    pub steps: Vec<Instruction>,
    /// The notice of the opening.
    pub event: ListingCreated,
}

/// Opens a listing: moves `quantity` units from the seller's holding into
/// custody and writes the record of the offer. An expiry in the past is
/// accepted.
pub fn create_listing(
    ctx: &mut CreateListing,
    price: u64,
    quantity: u64,
    expiry: i64,
    nonce: u64,
) -> (r: Result<Opening, Failure>)
    ensures
        match r {
            Ok(opening) => {
                &&& create_failure(*old(ctx), price, quantity) is None
                &&& *final(ctx) == after_create(*old(ctx), quantity)
                &&& opening.listing == opened_listing(*old(ctx), price, quantity, expiry, nonce)
                &&& opening.steps@ == create_steps(*old(ctx), quantity)
                &&& opening.event == (ListingCreated {
                    seller: old(ctx).seller,
                    listing: old(ctx).listing_key,
                    mint: old(ctx).mint,
                    price,
                    quantity,
                })
            },
            Err(e) => {
                &&& create_failure(*old(ctx), price, quantity) == Some(e)
                &&& *final(ctx) == *old(ctx)
            },
        },
{
    if quantity == 0 {
        return Err(Failure::Rule(EscrowError::InvalidQuantity));
    }
    if price == 0 {
        return Err(Failure::Rule(EscrowError::InvalidPrice));
    }
    if !ctx.is_wired() {
        return Err(Failure::AccountConstraint);
    }
    let seller_left: u64 = match ctx.seller_token_account.amount.checked_sub(quantity) {
        Some(v) => v,
        None => {
            return Err(Failure::InsufficientFunds);
        },
    };
    let bump: u8 = match ctx.bump {
        Some(b) => b,
        None => {
            return Err(Failure::MissingBump);
        },
    };
    let steps: Vec<Instruction> = vec![
        Instruction::Move(ctx.transfer_to_escrow_context(), quantity),
    ];
    proof {
        assert(steps@ =~= create_steps(*old(ctx), quantity));
    }
    ctx.seller_token_account.amount = seller_left;
    ctx.escrow_token_account.amount = quantity;
    let listing = Listing {
        seller: ctx.seller,
        mint: ctx.mint,
        price,
        quantity,
        expiry,
        status: ListingStatus::Open,
        bump,
        nonce,
    };
    let event = ListingCreated {
        seller: ctx.seller,
        listing: ctx.listing_key,
        mint: ctx.mint,
        price,
        quantity,
    };
    Ok(Opening { listing, steps, event })
}

/// Why a withdrawal of `amount` from the fee holding is refused, if it is.
pub open spec fn withdraw_failure(
    ctx: WithdrawFee,
    config: Config,
    amount: u64,
) -> Option<Failure> {
    if ctx.admin != config.admin {
        Some(Failure::Rule(EscrowError::Unauthorized))
    } else if !ctx.wired() {
        Some(Failure::AccountConstraint)
    } else if ctx.fee_vault.amount < amount {
        Some(Failure::InsufficientFunds)
    } else if ctx.admin_fee_account.amount + amount > u64::MAX {
        Some(Failure::BalanceOverflow)
    } else {
        None
    }
}

/// The holdings after `amount` has moved from the fee holding to the
/// administrator's.
pub open spec fn after_withdraw(ctx: WithdrawFee, amount: u64) -> WithdrawFee {
    WithdrawFee {
        fee_vault: TokenAccount {
            amount: (ctx.fee_vault.amount - amount) as u64,
            ..ctx.fee_vault
        },
        admin_fee_account: TokenAccount {
            amount: (ctx.admin_fee_account.amount + amount) as u64,
            ..ctx.admin_fee_account
        },
        ..ctx
    }
}

/// The step that the ledger takes for a withdrawal: the amount moves from
/// the fee holding to the administrator's.
pub open spec fn withdraw_steps(ctx: WithdrawFee, amount: u64) -> Seq<Instruction> {
    seq![
        Instruction::Move(
            Transfer {
                from: ctx.fee_vault.address,
                to: ctx.admin_fee_account.address,
                authority: ctx.fee_vault_authority,
            },
            amount,
        ),
    ]
}

/// Moves `amount` of the collected fees to the administrator's holding.
/// Hands back the step for the ledger and the notice of the withdrawal.
pub fn withdraw_fee(
    ctx: &mut WithdrawFee,
    config: &Config,
    amount: u64,
) -> (r: Result<(Vec<Instruction>, FeeWithdrawn), Failure>)
    ensures
        match r {
            Ok((steps, event)) => {
                &&& withdraw_failure(*old(ctx), *config, amount) is None
                &&& *final(ctx) == after_withdraw(*old(ctx), amount)
                &&& steps@ == withdraw_steps(*old(ctx), amount)
                &&& event == (FeeWithdrawn { admin: old(ctx).admin, amount })
            },
            Err(e) => {
                &&& withdraw_failure(*old(ctx), *config, amount) == Some(e)
                &&& *final(ctx) == *old(ctx)
            },
        },
{
    if !config.is_admin(&ctx.admin) {
        return Err(Failure::Rule(EscrowError::Unauthorized));
    }
    if !ctx.is_wired() {
        return Err(Failure::AccountConstraint);
    }
    let vault_left: u64 = match ctx.fee_vault.amount.checked_sub(amount) {
        Some(v) => v,
        None => {
            return Err(Failure::InsufficientFunds);
        },
    };
    let admin_has: u64 = match ctx.admin_fee_account.amount.checked_add(amount) {
        Some(v) => v,
        None => {
            return Err(Failure::BalanceOverflow);
        },
    };
    let steps: Vec<Instruction> = vec![Instruction::Move(ctx.vault_to_admin_context(), amount)];
    proof {
        assert(steps@ =~= withdraw_steps(*old(ctx), amount));
    }
    ctx.fee_vault.amount = vault_left;
    ctx.admin_fee_account.amount = admin_has;
    Ok((steps, FeeWithdrawn { admin: ctx.admin, amount }))
}

} // verus!
