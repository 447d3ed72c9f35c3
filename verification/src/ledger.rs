//! What the steps of an operation do to a holding, and that the holdings an
//! operation leaves are those that its steps lead to.

use vstd::prelude::*;
use crate::accounts::{Buy, Cancel, CreateListing, Instruction, TokenAccount, WithdrawFee};
use crate::config::Config;
use crate::settlement::{
    after_buy, after_cancel, after_create, after_withdraw, buy_failure, buy_steps, cancel_failure,
    cancel_steps, create_failure, create_steps, withdraw_failure, withdraw_steps,
};

verus! {

/// The holding after one step: a transfer takes the amount from the holding
/// it names as paying and adds it to the one it names as receiving; a
/// closure closes the holding it names; every other holding stays.
pub open spec fn after_step(account: TokenAccount, step: Instruction) -> TokenAccount {
    match step {
        Instruction::Move(order, amount) => if account.address == order.from {
            TokenAccount { amount: (account.amount - amount) as u64, ..account }
        } else if account.address == order.to {
            TokenAccount { amount: (account.amount + amount) as u64, ..account }
        } else {
            account
        },
        Instruction::Close(order) => if account.address == order.account {
            TokenAccount { closed: true, ..account }
        } else {
            account
        },
    }
}

/// The holding after the first `n` of the steps, taken in order.
pub open spec fn after_steps(account: TokenAccount, steps: Seq<Instruction>, n: nat) -> TokenAccount
    decreases n,
{
    if n == 0 {
        account
    } else {
        after_step(after_steps(account, steps, (n - 1) as nat), steps[n - 1])
    }
}

/// The steps of a purchase take each of the five holdings to where the
/// purchase leaves it.
pub proof fn lemma_buy_steps_settle(ctx: Buy, config: Config)
    requires
        buy_failure(ctx, config) is None,
    ensures
        buy_steps(ctx, config).len() == 4,
        after_steps(ctx.buyer_payment_account, buy_steps(ctx, config), 4) == after_buy(
            ctx,
            config,
        ).buyer_payment_account,
        after_steps(ctx.buyer_receive_account, buy_steps(ctx, config), 4) == after_buy(
            ctx,
            config,
        ).buyer_receive_account,
        after_steps(ctx.seller_receiving_account, buy_steps(ctx, config), 4) == after_buy(
            ctx,
            config,
        ).seller_receiving_account,
        after_steps(ctx.escrow_token_account, buy_steps(ctx, config), 4) == after_buy(
            ctx,
            config,
        ).escrow_token_account,
        after_steps(ctx.fee_vault, buy_steps(ctx, config), 4) == after_buy(ctx, config).fee_vault,
{
    reveal_with_fuel(after_steps, 5);
}

/// The steps of a return take the seller's holding and the custody holding
/// to where the return leaves them.
pub proof fn lemma_cancel_steps_settle(ctx: Cancel, now: i64)
    requires
        cancel_failure(ctx, now) is None,
    ensures
        cancel_steps(ctx).len() == 2,
        after_steps(ctx.seller_token_account, cancel_steps(ctx), 2) == after_cancel(
            ctx,
        ).seller_token_account,
        after_steps(ctx.escrow_token_account, cancel_steps(ctx), 2) == after_cancel(
            ctx,
        ).escrow_token_account,
{
    reveal_with_fuel(after_steps, 3);
}

/// The step of an opening takes the seller's holding and the custody
/// holding to where the opening leaves them.
pub proof fn lemma_create_steps_settle(ctx: CreateListing, price: u64, quantity: u64)
    requires
        create_failure(ctx, price, quantity) is None,
    ensures
        create_steps(ctx, quantity).len() == 1,
        after_steps(ctx.seller_token_account, create_steps(ctx, quantity), 1) == after_create(
            ctx,
            quantity,
        ).seller_token_account,
        after_steps(ctx.escrow_token_account, create_steps(ctx, quantity), 1) == after_create(
            ctx,
            quantity,
        ).escrow_token_account,
{
    reveal_with_fuel(after_steps, 2);
}

/// The step of a withdrawal takes the fee holding and the administrator's
/// holding to where the withdrawal leaves them.
pub proof fn lemma_withdraw_steps_settle(ctx: WithdrawFee, config: Config, amount: u64)
    requires
        withdraw_failure(ctx, config, amount) is None,
    ensures
        withdraw_steps(ctx, amount).len() == 1,
        after_steps(ctx.fee_vault, withdraw_steps(ctx, amount), 1) == after_withdraw(
            ctx,
            amount,
        ).fee_vault,
        after_steps(ctx.admin_fee_account, withdraw_steps(ctx, amount), 1) == after_withdraw(
            ctx,
            amount,
        ).admin_fee_account,
{
    reveal_with_fuel(after_steps, 2);
}

} // verus!
