//! What holds of the engine over all listings, callers and amounts.

use vstd::prelude::*;
use crate::accounts::{Buy, Cancel, CreateListing, WithdrawFee};
use crate::config::Config;
use crate::error::{EscrowError, Failure};
use crate::listing::ListingStatus;
use crate::settlement::{
    after_buy, after_cancel, after_create, after_withdraw, buy_failure, cancel_failure, create_failure, fee_of,
    may_cancel, opened_listing, split_of, withdraw_failure,
};

verus! {

/// Where the holdings belong together, the seller holds the lot and a
/// derivation byte is at hand, the opening of a listing is refused exactly
/// when the price or the quantity is zero.
pub proof fn lemma_create_refused_iff_zero(ctx: CreateListing, price: u64, quantity: u64)
    requires
        ctx.wired(),
        ctx.seller_token_account.amount >= quantity,
        ctx.bump is Some,
    ensures
        create_failure(ctx, price, quantity) is Some <==> (price == 0 || quantity == 0),
        quantity == 0 ==> create_failure(ctx, price, quantity) == Some(
            Failure::Rule(EscrowError::InvalidQuantity),
        ),
        quantity != 0 && price == 0 ==> create_failure(ctx, price, quantity) == Some(
            Failure::Rule(EscrowError::InvalidPrice),
        ),
{
}

/// A new listing is open, and its custody holding stands under the
/// listing's authority and holds exactly the lot.
pub proof fn lemma_created_listing_is_open(
    ctx: CreateListing,
    price: u64,
    quantity: u64,
    expiry: i64,
    nonce: u64,
)
    requires
        create_failure(ctx, price, quantity) is None,
    ensures
        opened_listing(ctx, price, quantity, expiry, nonce).status == ListingStatus::Open,
        opened_listing(ctx, price, quantity, expiry, nonce).price > 0,
        opened_listing(ctx, price, quantity, expiry, nonce).quantity > 0,
        after_create(ctx, quantity).escrow_token_account.amount == quantity,
        after_create(ctx, quantity).escrow_token_account.holds_for(
            ctx.listing_key,
            opened_listing(ctx, price, quantity, expiry, nonce).mint,
        ),
        after_create(ctx, quantity).seller_token_account.amount + quantity
            == ctx.seller_token_account.amount,
{
}

/// A listing is bought at most once: after a purchase, every further
/// purchase and every return of the lot is refused for the listing's state,
/// whoever asks, at whatever time and with whatever holdings.
pub proof fn lemma_settled_is_terminal(
    ctx: Buy,
    config: Config,
    again: Buy,
    again_config: Config,
    unwind: Cancel,
    now: i64,
)
    requires
        buy_failure(ctx, config) is None,
        again.listing == after_buy(ctx, config).listing,
        unwind.listing == after_buy(ctx, config).listing,
    ensures
        after_buy(ctx, config).listing.status == ListingStatus::Settled,
        buy_failure(again, again_config) == Some(Failure::Rule(EscrowError::InvalidState)),
        cancel_failure(unwind, now) == Some(Failure::Rule(EscrowError::InvalidState)),
{
}

/// A lot is returned at most once: after a return, every purchase and every
/// further return is refused for the listing's state.
pub proof fn lemma_canceled_is_terminal(
    ctx: Cancel,
    at: i64,
    purchase: Buy,
    config: Config,
    again: Cancel,
    now: i64,
)
    requires
        cancel_failure(ctx, at) is None,
        purchase.listing == after_cancel(ctx).listing,
        again.listing == after_cancel(ctx).listing,
    ensures
        after_cancel(ctx).listing.status == ListingStatus::Canceled,
        buy_failure(purchase, config) == Some(Failure::Rule(EscrowError::InvalidState)),
        cancel_failure(again, now) == Some(Failure::Rule(EscrowError::InvalidState)),
{
}

/// A lot goes back only at the seller's call or after the expiry; on an open
/// listing every other call is refused as unauthorized.
pub proof fn lemma_cancel_needs_seller_or_expiry(ctx: Cancel, now: i64)
    ensures
        cancel_failure(ctx, now) is None ==> (ctx.authority == ctx.listing.seller || now
            > ctx.listing.expiry),
        ctx.listing.status == ListingStatus::Open && ctx.authority != ctx.listing.seller && now
            <= ctx.listing.expiry ==> cancel_failure(ctx, now) == Some(
            Failure::Rule(EscrowError::Unauthorized),
        ),
        cancel_failure(ctx, now) == Some(Failure::Rule(EscrowError::Unauthorized)) ==> !may_cancel(
            ctx.listing,
            ctx.authority,
            now,
        ),
{
}

/// Where a price divides, the fee is the product of price and rate over ten
/// thousand, rounded down, and the two shares add up to the price.
pub proof fn lemma_split_is_exact(price: u64, fee_bps: u16)
    requires
        split_of(price, fee_bps) is Ok,
    ensures
        split_of(price, fee_bps)->Ok_0.1 == (price * fee_bps) / 10_000,
        split_of(price, fee_bps)->Ok_0.0 + split_of(price, fee_bps)->Ok_0.1 == price,
{
}

/// At a rate of no more than the whole, a price divides exactly when its
/// product with the rate stays in the 64-bit range.
pub proof fn lemma_split_fails_only_on_overflow(price: u64, fee_bps: u16)
    requires
        fee_bps <= 10_000,
    ensures
        split_of(price, fee_bps) is Err <==> price * fee_bps > u64::MAX,
{
    if price * fee_bps <= u64::MAX {
        assert(fee_of(price, fee_bps) <= price) by (nonlinear_arith)
            requires
                fee_bps <= 10_000,
                fee_of(price, fee_bps) == (price * fee_bps) / 10_000,
        ;
    }
}

/// In every purchase the seller's holding grows by the seller's share and
/// the fee holding by the fee, the two add up to the price that the buyer
/// pays, and the buyer's holding grows by the lot.
pub proof fn lemma_buy_moves_the_price(ctx: Buy, config: Config)
    requires
        buy_failure(ctx, config) is None,
    ensures
        after_buy(ctx, config).fee_vault.amount == ctx.fee_vault.amount + (ctx.listing.price
            * config.fee_bps) / 10_000,
        after_buy(ctx, config).seller_receiving_account.amount
            == ctx.seller_receiving_account.amount + ctx.listing.price - (ctx.listing.price
            * config.fee_bps) / 10_000,
        after_buy(ctx, config).buyer_payment_account.amount + ctx.listing.price
            == ctx.buyer_payment_account.amount,
        after_buy(ctx, config).buyer_receive_account.amount == ctx.buyer_receive_account.amount
            + ctx.listing.quantity,
        after_buy(ctx, config).fee_vault.amount >= ctx.fee_vault.amount,
{
}

/// A purchase makes and loses nothing: the five holdings hold together
/// after it what they held before.
pub proof fn lemma_buy_conserves(ctx: Buy, config: Config)
    requires
        buy_failure(ctx, config) is None,
    ensures
        after_buy(ctx, config).buyer_payment_account.amount + after_buy(
            ctx,
            config,
        ).buyer_receive_account.amount + after_buy(ctx, config).seller_receiving_account.amount
            + after_buy(ctx, config).escrow_token_account.amount + after_buy(
            ctx,
            config,
        ).fee_vault.amount == ctx.buyer_payment_account.amount + ctx.buyer_receive_account.amount
            + ctx.seller_receiving_account.amount + ctx.escrow_token_account.amount
            + ctx.fee_vault.amount,
{
}

/// A price whose product with the rate leaves the 64-bit range cannot be
/// settled: the purchase of an open listing at such a price is refused for
/// overflow.
pub proof fn lemma_buy_refuses_overflow(ctx: Buy, config: Config)
    requires
        ctx.listing.status == ListingStatus::Open,
        ctx.listing.price * config.fee_bps > u64::MAX,
    ensures
        buy_failure(ctx, config) == Some(Failure::Rule(EscrowError::Overflow)),
{
}

/// After a purchase the custody holding of the listing is empty and closed.
pub proof fn lemma_custody_empty_after_buy(ctx: Buy, config: Config)
    requires
        buy_failure(ctx, config) is None,
    ensures
        ctx.escrow_token_account.amount == ctx.listing.quantity,
        after_buy(ctx, config).escrow_token_account.amount == 0,
        after_buy(ctx, config).escrow_token_account.closed,
        after_buy(ctx, config).listing.status != ListingStatus::Open,
{
}

/// After the return of a lot the custody holding of the listing is empty
/// and closed, and the seller holds the lot again.
pub proof fn lemma_custody_empty_after_cancel(ctx: Cancel, now: i64)
    requires
        cancel_failure(ctx, now) is None,
    ensures
        ctx.escrow_token_account.amount == ctx.listing.quantity,
        after_cancel(ctx).escrow_token_account.amount == 0,
        after_cancel(ctx).escrow_token_account.closed,
        after_cancel(ctx).listing.status != ListingStatus::Open,
        after_cancel(ctx).seller_token_account.amount == ctx.seller_token_account.amount
            + ctx.listing.quantity,
{
}

/// Nobody but the administrator draws on the fees: every other caller is
/// refused as unauthorized, whatever the amount and the holdings.
pub proof fn lemma_withdraw_needs_admin(ctx: WithdrawFee, config: Config, amount: u64)
    ensures
        ctx.admin != config.admin ==> withdraw_failure(ctx, config, amount) == Some(
            Failure::Rule(EscrowError::Unauthorized),
        ),
        withdraw_failure(ctx, config, amount) is None ==> ctx.admin == config.admin,
{
}

/// A withdrawal takes from the fee holding exactly what it gives to the
/// administrator's, and never more than the fee holding has.
pub proof fn lemma_withdraw_moves_the_amount(ctx: WithdrawFee, config: Config, amount: u64)
    requires
        withdraw_failure(ctx, config, amount) is None,
    ensures
        amount <= ctx.fee_vault.amount,
        after_withdraw(ctx, amount).fee_vault.amount + amount == ctx.fee_vault.amount,
        after_withdraw(ctx, amount).admin_fee_account.amount == ctx.admin_fee_account.amount
            + amount,
{
}

} // verus!
