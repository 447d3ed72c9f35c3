use escrow_market::accounts::{
    Buy, Cancel, CloseAccount, CreateListing, Instruction, TokenAccount, Transfer, WithdrawFee,
};
use escrow_market::config::{admin_identity, Config, ADMIN_PUBKEY, BPS_DENOMINATOR, FEE_BPS};
use escrow_market::error::{EscrowError, Failure};
use escrow_market::events::{Canceled, FeeWithdrawn, ListingCreated, Purchased};
use escrow_market::identity::Identity;
use escrow_market::listing::{Exit, Listing, ListingStatus};
use escrow_market::settlement::{
    buy, cancel, create_listing, is_cancel_authorized, split_payment, withdraw_fee,
};

const T: i64 = 1_700_000_000;
const HOUR: i64 = 3_600;

fn id(n: u8) -> Identity {
    Identity::new([n; 32])
}

fn holding(address: u8, owner: Identity, mint: Identity, amount: u64) -> TokenAccount {
    TokenAccount { address: id(address), owner, mint, amount, closed: false }
}

fn seller() -> Identity {
    id(1)
}

fn buyer() -> Identity {
    id(2)
}

fn stranger() -> Identity {
    id(3)
}

fn mint() -> Identity {
    id(9)
}

fn listing_key() -> Identity {
    id(7)
}

fn vault_authority() -> Identity {
    id(8)
}

fn opening(seller_has: u64) -> CreateListing {
    CreateListing {
        seller: seller(),
        listing_key: listing_key(),
        bump: Some(254),
        mint: mint(),
        seller_token_account: holding(10, seller(), mint(), seller_has),
        escrow_token_account: holding(11, listing_key(), mint(), 0),
    }
}

fn open_listing(price: u64, quantity: u64) -> (Listing, TokenAccount, TokenAccount) {
    let mut ctx = opening(quantity);
    let opened = create_listing(&mut ctx, price, quantity, T + HOUR, 42).unwrap();
    (opened.listing, ctx.seller_token_account, ctx.escrow_token_account)
}

fn purchase(listing: Listing, escrow: TokenAccount, buyer_has: u64) -> Buy {
    Buy {
        buyer: buyer(),
        listing_key: listing_key(),
        listing,
        buyer_payment_account: holding(20, buyer(), mint(), buyer_has),
        buyer_receive_account: holding(21, buyer(), mint(), 0),
        seller_receiving_account: holding(12, seller(), mint(), 0),
        escrow_token_account: escrow,
        fee_vault: holding(30, vault_authority(), mint(), 0),
    }
}

fn unwinding(listing: Listing, escrow: TokenAccount, authority: Identity) -> Cancel {
    Cancel {
        authority,
        listing_key: listing_key(),
        listing,
        seller: seller(),
        seller_token_account: holding(10, seller(), mint(), 0),
        escrow_token_account: escrow,
    }
}

fn withdrawal(admin: Identity, vault_has: u64) -> WithdrawFee {
    WithdrawFee {
        admin,
        admin_fee_account: holding(40, admin, mint(), 0),
        fee_vault: holding(30, vault_authority(), mint(), vault_has),
        fee_vault_authority: vault_authority(),
    }
}

#[test]
fn create_moves_lot_into_custody() {
    let mut ctx = opening(8);
    let opened = create_listing(&mut ctx, 1000, 5, T + HOUR, 42).unwrap();
    assert_eq!(
        opened.listing,
        Listing {
            seller: seller(),
            mint: mint(),
            price: 1000,
            quantity: 5,
            expiry: T + HOUR,
            status: ListingStatus::Open,
            bump: 254,
            nonce: 42,
        }
    );
    assert_eq!(
        opened.event,
        ListingCreated { seller: seller(), listing: listing_key(), mint: mint(), price: 1000, quantity: 5 }
    );
    assert_eq!(
        opened.steps,
        vec![Instruction::Move(Transfer { from: id(10), to: id(11), authority: seller() }, 5)]
    );
    assert_eq!(ctx.seller_token_account.amount, 3);
    assert_eq!(ctx.escrow_token_account.amount, 5);
}

#[test]
fn create_rejects_zero_quantity() {
    let mut ctx = opening(8);
    let before = ctx;
    assert_eq!(
        create_listing(&mut ctx, 1000, 0, T, 1),
        Err(Failure::Rule(EscrowError::InvalidQuantity))
    );
    assert_eq!(ctx, before);
}

#[test]
fn create_rejects_zero_price() {
    let mut ctx = opening(8);
    let before = ctx;
    assert_eq!(create_listing(&mut ctx, 0, 5, T, 1), Err(Failure::Rule(EscrowError::InvalidPrice)));
    assert_eq!(ctx, before);
}

#[test]
fn create_with_both_zero_reports_quantity() {
    let mut ctx = opening(8);
    assert_eq!(
        create_listing(&mut ctx, 0, 0, T, 1),
        Err(Failure::Rule(EscrowError::InvalidQuantity))
    );
}

#[test]
fn create_accepts_past_expiry() {
    let mut ctx = opening(5);
    let opened = create_listing(&mut ctx, 1, 1, i64::MIN, 0).unwrap();
    assert_eq!(opened.listing.expiry, i64::MIN);
    assert_eq!(opened.listing.status, ListingStatus::Open);
}

#[test]
fn create_fails_on_insufficient_balance() {
    let mut ctx = opening(4);
    let before = ctx;
    assert_eq!(create_listing(&mut ctx, 1000, 5, T, 1), Err(Failure::InsufficientFunds));
    assert_eq!(ctx, before);
}

#[test]
fn create_fails_without_bump() {
    let mut ctx = opening(8);
    ctx.bump = None;
    let before = ctx;
    assert_eq!(create_listing(&mut ctx, 1000, 5, T, 1), Err(Failure::MissingBump));
    assert_eq!(ctx, before);
}

#[test]
fn create_fails_on_foreign_holding() {
    let mut ctx = opening(8);
    ctx.seller_token_account.owner = stranger();
    assert_eq!(create_listing(&mut ctx, 1000, 5, T, 1), Err(Failure::AccountConstraint));
    let mut used = opening(8);
    used.escrow_token_account.amount = 1;
    assert_eq!(create_listing(&mut used, 1000, 5, T, 1), Err(Failure::AccountConstraint));
    let mut same = opening(8);
    same.escrow_token_account.address = same.seller_token_account.address;
    assert_eq!(create_listing(&mut same, 1000, 5, T, 1), Err(Failure::AccountConstraint));
}

#[test]
fn buy_settles_listing() {
    let (listing, _, escrow) = open_listing(1000, 5);
    let mut ctx = purchase(listing, escrow, 1000);
    let (steps, event) = buy(&mut ctx, &Config::standard()).unwrap();
    assert_eq!(event, Purchased { listing: listing_key(), buyer: buyer(), price: 1000 });
    assert_eq!(
        steps,
        vec![
            Instruction::Move(Transfer { from: id(20), to: id(12), authority: buyer() }, 990),
            Instruction::Move(Transfer { from: id(20), to: id(30), authority: buyer() }, 10),
            Instruction::Move(Transfer { from: id(11), to: id(21), authority: listing_key() }, 5),
            Instruction::Close(CloseAccount {
                account: id(11),
                destination: id(12),
                authority: listing_key(),
            }),
        ]
    );
    assert_eq!(ctx.seller_receiving_account.amount, 990);
    assert_eq!(ctx.fee_vault.amount, 10);
    assert_eq!(ctx.buyer_receive_account.amount, 5);
    assert_eq!(ctx.buyer_payment_account.amount, 0);
    assert_eq!(ctx.escrow_token_account.amount, 0);
    assert!(ctx.escrow_token_account.closed);
    assert_eq!(ctx.listing.status, ListingStatus::Settled);
}

#[test]
fn buy_conserves_holdings() {
    let (listing, _, escrow) = open_listing(12_345, 7);
    let mut ctx = purchase(listing, escrow, 20_000);
    ctx.fee_vault.amount = 3;
    ctx.seller_receiving_account.amount = 11;
    let before = ctx.buyer_payment_account.amount as u128
        + ctx.buyer_receive_account.amount as u128
        + ctx.seller_receiving_account.amount as u128
        + ctx.escrow_token_account.amount as u128
        + ctx.fee_vault.amount as u128;
    buy(&mut ctx, &Config::standard()).unwrap();
    let after = ctx.buyer_payment_account.amount as u128
        + ctx.buyer_receive_account.amount as u128
        + ctx.seller_receiving_account.amount as u128
        + ctx.escrow_token_account.amount as u128
        + ctx.fee_vault.amount as u128;
    assert_eq!(before, after);
    assert_eq!(ctx.fee_vault.amount, 3 + 123);
    assert_eq!(ctx.seller_receiving_account.amount, 11 + 12_222);
    assert_eq!(ctx.buyer_payment_account.amount, 20_000 - 12_345);
    assert_eq!(ctx.buyer_receive_account.amount, 7);
}

#[test]
fn buy_succeeds_at_most_once() {
    let (listing, _, escrow) = open_listing(1000, 5);
    let mut ctx = purchase(listing, escrow, 5000);
    assert!(buy(&mut ctx, &Config::standard()).is_ok());
    let settled = ctx;
    assert_eq!(
        buy(&mut ctx, &Config::standard()),
        Err(Failure::Rule(EscrowError::InvalidState))
    );
    assert_eq!(ctx, settled);
    let mut back = unwinding(settled.listing, settled.escrow_token_account, seller());
    assert_eq!(cancel(&mut back, T), Err(Failure::Rule(EscrowError::InvalidState)));
    let mut late = unwinding(settled.listing, settled.escrow_token_account, stranger());
    assert_eq!(cancel(&mut late, T + 2 * HOUR), Err(Failure::Rule(EscrowError::InvalidState)));
}

#[test]
fn buy_fails_on_overflowing_price() {
    let price = u64::MAX / 100 + 1;
    let (listing, _, escrow) = open_listing(price, 5);
    let mut ctx = purchase(listing, escrow, u64::MAX);
    let before = ctx;
    assert_eq!(buy(&mut ctx, &Config::standard()), Err(Failure::Rule(EscrowError::Overflow)));
    assert_eq!(ctx, before);
}

#[test]
fn buy_at_largest_price_that_fits() {
    let price = u64::MAX / 100;
    let (listing, _, escrow) = open_listing(price, 5);
    let mut ctx = purchase(listing, escrow, price);
    assert!(buy(&mut ctx, &Config::standard()).is_ok());
    assert_eq!(ctx.fee_vault.amount, 1_844_674_407_370_955);
    assert_eq!(ctx.seller_receiving_account.amount, price - 1_844_674_407_370_955);
}

#[test]
fn buy_fails_when_buyer_cannot_pay() {
    let (listing, _, escrow) = open_listing(1000, 5);
    let mut ctx = purchase(listing, escrow, 999);
    let before = ctx;
    assert_eq!(buy(&mut ctx, &Config::standard()), Err(Failure::InsufficientFunds));
    assert_eq!(ctx, before);
}

#[test]
fn buy_fails_when_receiver_is_full() {
    let (listing, _, escrow) = open_listing(1000, 5);
    let mut ctx = purchase(listing, escrow, 1000);
    ctx.fee_vault.amount = u64::MAX - 9;
    let before = ctx;
    assert_eq!(buy(&mut ctx, &Config::standard()), Err(Failure::BalanceOverflow));
    assert_eq!(ctx, before);
    ctx.fee_vault.amount = u64::MAX - 10;
    assert!(buy(&mut ctx, &Config::standard()).is_ok());
    assert_eq!(ctx.fee_vault.amount, u64::MAX);
}

#[test]
fn buy_fails_on_foreign_holding() {
    let (listing, _, escrow) = open_listing(1000, 5);
    let mut ctx = purchase(listing, escrow, 1000);
    ctx.seller_receiving_account.owner = stranger();
    assert_eq!(buy(&mut ctx, &Config::standard()), Err(Failure::AccountConstraint));
    let mut same = purchase(listing, escrow, 1000);
    same.buyer_receive_account.address = same.buyer_payment_account.address;
    assert_eq!(buy(&mut same, &Config::standard()), Err(Failure::AccountConstraint));
}

#[test]
fn buy_with_fee_above_price_overflows() {
    let (listing, _, escrow) = open_listing(1000, 5);
    let mut ctx = purchase(listing, escrow, 1000);
    let greedy = Config { fee_bps: 10_010, admin: admin_identity() };
    assert_eq!(buy(&mut ctx, &greedy), Err(Failure::Rule(EscrowError::Overflow)));
    let whole = Config { fee_bps: 10_000, admin: admin_identity() };
    assert!(buy(&mut ctx, &whole).is_ok());
    assert_eq!(ctx.fee_vault.amount, 1000);
    assert_eq!(ctx.seller_receiving_account.amount, 0);
}

#[test]
fn split_rounds_fee_down() {
    assert_eq!(split_payment(1000, 100), Ok((990, 10)));
    assert_eq!(split_payment(99, 100), Ok((99, 0)));
    assert_eq!(split_payment(100, 100), Ok((99, 1)));
    assert_eq!(split_payment(199, 100), Ok((198, 1)));
    assert_eq!(split_payment(0, 100), Ok((0, 0)));
    assert_eq!(split_payment(12_345, 250), Ok((12_037, 308)));
    assert_eq!(split_payment(u64::MAX, 100), Err(EscrowError::Overflow));
    assert_eq!(split_payment(u64::MAX, 1), Ok((u64::MAX - 1_844_674_407_370_955, 1_844_674_407_370_955)));
    assert_eq!(split_payment(u64::MAX, 0), Ok((u64::MAX, 0)));
}

#[test]
fn split_shares_add_up() {
    let mut price: u64 = 1;
    while price < u64::MAX / 100 {
        let (seller_amount, fee) = split_payment(price, FEE_BPS).unwrap();
        assert_eq!(seller_amount + fee, price);
        assert_eq!(fee, price * 100 / 10_000);
        price = price * 7 + 3;
    }
}

#[test]
fn cancel_by_stranger_waits_for_expiry() {
    let (listing, _, escrow) = open_listing(1000, 5);
    let mut ctx = unwinding(listing, escrow, stranger());
    let before = ctx;
    assert_eq!(cancel(&mut ctx, T), Err(Failure::Rule(EscrowError::Unauthorized)));
    assert_eq!(cancel(&mut ctx, T + HOUR), Err(Failure::Rule(EscrowError::Unauthorized)));
    assert_eq!(ctx, before);
    let (steps, event) = cancel(&mut ctx, T + HOUR + 1).unwrap();
    assert_eq!(event, Canceled { listing: listing_key(), seller: seller() });
    assert_eq!(
        steps,
        vec![
            Instruction::Move(Transfer { from: id(11), to: id(10), authority: listing_key() }, 5),
            Instruction::Close(CloseAccount {
                account: id(11),
                destination: seller(),
                authority: listing_key(),
            }),
        ]
    );
    assert_eq!(ctx.seller_token_account.amount, 5);
    assert_eq!(ctx.escrow_token_account.amount, 0);
    assert!(ctx.escrow_token_account.closed);
    assert_eq!(ctx.listing.status, ListingStatus::Canceled);
}

#[test]
fn cancel_by_seller_before_expiry() {
    let (listing, _, escrow) = open_listing(1000, 5);
    let mut ctx = unwinding(listing, escrow, seller());
    assert!(cancel(&mut ctx, T).is_ok());
    assert_eq!(ctx.listing.status, ListingStatus::Canceled);
    assert_eq!(ctx.seller_token_account.amount, 5);
    let canceled = ctx;
    assert_eq!(cancel(&mut ctx, T), Err(Failure::Rule(EscrowError::InvalidState)));
    let mut late = purchase(canceled.listing, canceled.escrow_token_account, 1000);
    assert_eq!(buy(&mut late, &Config::standard()), Err(Failure::Rule(EscrowError::InvalidState)));
}

#[test]
fn cancel_fails_on_foreign_holding() {
    let (listing, _, escrow) = open_listing(1000, 5);
    let mut ctx = unwinding(listing, escrow, seller());
    ctx.seller = stranger();
    assert_eq!(cancel(&mut ctx, T), Err(Failure::AccountConstraint));
    let mut full = unwinding(listing, escrow, seller());
    full.seller_token_account.amount = u64::MAX - 4;
    assert_eq!(cancel(&mut full, T), Err(Failure::BalanceOverflow));
}

#[test]
fn cancel_authorization_rule() {
    let (listing, _, _) = open_listing(1000, 5);
    assert!(is_cancel_authorized(&listing, &seller(), i64::MIN));
    assert!(!is_cancel_authorized(&listing, &stranger(), T + HOUR));
    assert!(is_cancel_authorized(&listing, &stranger(), T + HOUR + 1));
}

#[test]
fn withdraw_drains_fee_holding_once() {
    let (listing, _, escrow) = open_listing(1000, 5);
    let mut sale = purchase(listing, escrow, 1000);
    buy(&mut sale, &Config::standard()).unwrap();
    let mut ctx = WithdrawFee {
        admin: admin_identity(),
        admin_fee_account: holding(40, admin_identity(), mint(), 0),
        fee_vault: sale.fee_vault,
        fee_vault_authority: vault_authority(),
    };
    let (steps, event) = withdraw_fee(&mut ctx, &Config::standard(), 10).unwrap();
    assert_eq!(event, FeeWithdrawn { admin: admin_identity(), amount: 10 });
    assert_eq!(
        steps,
        vec![Instruction::Move(Transfer { from: id(30), to: id(40), authority: vault_authority() }, 10)]
    );
    assert_eq!(ctx.fee_vault.amount, 0);
    assert_eq!(ctx.admin_fee_account.amount, 10);
    let drained = ctx;
    assert_eq!(withdraw_fee(&mut ctx, &Config::standard(), 10), Err(Failure::InsufficientFunds));
    assert_eq!(ctx, drained);
}

#[test]
fn withdraw_refuses_everyone_but_admin() {
    for amount in [0u64, 1, 10, u64::MAX] {
        let mut ctx = withdrawal(stranger(), 10);
        let before = ctx;
        assert_eq!(
            withdraw_fee(&mut ctx, &Config::standard(), amount),
            Err(Failure::Rule(EscrowError::Unauthorized))
        );
        assert_eq!(ctx, before);
    }
}

#[test]
fn withdraw_fails_on_foreign_holding() {
    let mut ctx = withdrawal(admin_identity(), 10);
    ctx.admin_fee_account.owner = stranger();
    assert_eq!(withdraw_fee(&mut ctx, &Config::standard(), 1), Err(Failure::AccountConstraint));
    let mut full = withdrawal(admin_identity(), 10);
    full.admin_fee_account.amount = u64::MAX;
    assert_eq!(withdraw_fee(&mut full, &Config::standard(), 1), Err(Failure::BalanceOverflow));
}

#[test]
fn withdraw_under_substituted_admin() {
    let config = Config { fee_bps: 100, admin: stranger() };
    let mut ctx = withdrawal(stranger(), 10);
    assert!(withdraw_fee(&mut ctx, &config, 4).is_ok());
    assert_eq!(ctx.fee_vault.amount, 6);
    assert!(config.is_admin(&stranger()));
    assert!(!config.is_admin(&admin_identity()));
}

#[test]
fn standard_policy() {
    let config = Config::standard();
    assert_eq!(config.fee_bps, 100);
    assert_eq!(FEE_BPS, 100);
    assert_eq!(BPS_DENOMINATOR, 10_000);
    assert_eq!(config.admin, admin_identity());
    assert_eq!(admin_identity().bytes, ADMIN_PUBKEY);
    assert_eq!(admin_identity().bytes[2], 71);
    assert_eq!(admin_identity().bytes[27], 128);
}

#[test]
fn status_codes_and_steps() {
    assert_eq!(ListingStatus::Open.code(), 0);
    assert_eq!(ListingStatus::Settled.code(), 1);
    assert_eq!(ListingStatus::Canceled.code(), 2);
    assert_eq!(ListingStatus::from_code(0), Some(ListingStatus::Open));
    assert_eq!(ListingStatus::from_code(1), Some(ListingStatus::Settled));
    assert_eq!(ListingStatus::from_code(2), Some(ListingStatus::Canceled));
    assert_eq!(ListingStatus::from_code(3), None);
    assert!(ListingStatus::Open.is_open());
    assert!(!ListingStatus::Settled.is_open());
    assert_eq!(ListingStatus::Open.advance(Exit::Purchase), Ok(ListingStatus::Settled));
    assert_eq!(ListingStatus::Open.advance(Exit::Cancellation), Ok(ListingStatus::Canceled));
    assert_eq!(ListingStatus::Settled.advance(Exit::Cancellation), Err(EscrowError::InvalidState));
    assert_eq!(ListingStatus::Canceled.advance(Exit::Purchase), Err(EscrowError::InvalidState));
    assert_eq!(ListingStatus::Settled.advance(Exit::Purchase), Err(EscrowError::InvalidState));
}

#[test]
fn listing_seeds_and_size() {
    let (listing, _, escrow) = open_listing(1000, 5);
    let seeds = listing.listing_seeds();
    assert_eq!(
        seeds,
        vec![
            b"listing".to_vec(),
            vec![1u8; 32],
            vec![9u8; 32],
            vec![42u8, 0, 0, 0, 0, 0, 0, 0],
            vec![254u8],
        ]
    );
    assert_eq!(purchase(listing, escrow, 0).listing_seeds(), seeds);
    assert_eq!(unwinding(listing, escrow, seller()).listing_seeds(), seeds);
    assert_eq!(Listing::LEN, 8 + 32 + 32 + 8 + 8 + 8 + 1 + 1 + 8);
}

#[test]
fn identities_compare_byte_for_byte() {
    let mut bytes = [5u8; 32];
    let a = Identity::new(bytes);
    bytes[31] = 6;
    let b = Identity::new(bytes);
    assert!(a.same_as(&a));
    assert!(!a.same_as(&b));
    assert_eq!(b.to_vec().len(), 32);
    assert_eq!(b.to_vec()[31], 6);
}

#[test]
fn error_messages() {
    assert_eq!(EscrowError::InvalidState.message(), "Listing is not in correct state");
    assert_eq!(EscrowError::Unauthorized.message(), "Unauthorized");
    assert_eq!(EscrowError::Overflow.message(), "Overflow");
    assert_eq!(EscrowError::InvalidQuantity.message(), "Invalid quantity");
    assert_eq!(EscrowError::InvalidPrice.message(), "Invalid price");
}
