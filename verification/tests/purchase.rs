use whitelist_sale::errors::ErrorCode;
use whitelist_sale::identity::Identity;
use whitelist_sale::instructions::purchase::PurchaseToken;
use whitelist_sale::instructions::transfer_funds::transfer_funds;
use whitelist_sale::instructions::transfer_funds::Withdraw;
use whitelist_sale::instructions::whitelist::Whitelist;
use whitelist_sale::purchase_tokens;
use whitelist_sale::records::Config;
use whitelist_sale::records::MintSingleton;
use whitelist_sale::records::TokenAccount;
use whitelist_sale::withdraw_lamports;
use whitelist_sale::TOKEN_PRICE;

fn buyer() -> Identity {
    Identity { id: 7 }
}

fn sale_ctx(whitelisted: bool, existing_tokens: u64, lamports: u64) -> PurchaseToken {
    let users = if whitelisted { vec![buyer()] } else { vec![Identity { id: 8 }] };
    PurchaseToken {
        mint: MintSingleton::new(Identity { id: 3 }, 9),
        destination: TokenAccount { owner: buyer(), amount: existing_tokens },
        whitelist: Whitelist { users },
        payer: buyer(),
        payer_lamports: lamports,
        config: Config::new(Identity { id: 1 }, 890_880),
    }
}

#[test]
fn purchase_by_non_member_fails_regardless_of_funds() {
    for quantity in [1u64, 5, 100] {
        let mut ctx = sale_ctx(false, 0, u64::MAX / 2);
        let r = purchase_tokens(&mut ctx, quantity);
        assert_eq!(r, Err(ErrorCode::NotWhitelisted));
        assert_eq!(ctx.payer_lamports, u64::MAX / 2);
        assert_eq!(ctx.destination.amount, 0);
        assert_eq!(ctx.config.lamports, 890_880);
    }
}

#[test]
fn purchase_over_the_cap_fails_and_changes_nothing() {
    let mut ctx = sale_ctx(true, 95, u64::MAX / 2);
    let r = purchase_tokens(&mut ctx, 6);
    assert_eq!(r, Err(ErrorCode::PurchaseLimitExceeded));
    assert_eq!(ctx.destination.amount, 95);
    assert_eq!(ctx.payer_lamports, u64::MAX / 2);
    assert_eq!(ctx.config.lamports, 890_880);
}

#[test]
fn purchase_up_to_the_cap_succeeds() {
    let mut ctx = sale_ctx(true, 95, u64::MAX / 2);
    let r = purchase_tokens(&mut ctx, 5);
    assert_eq!(r, Ok(()));
    assert_eq!(ctx.destination.amount, 100);
}

#[test]
fn purchase_without_funds_fails_and_changes_nothing() {
    // three tokens cost 6_000_000_000; one minor unit is missing
    let mut ctx = sale_ctx(true, 0, 5_999_999_999);
    let r = purchase_tokens(&mut ctx, 3);
    assert_eq!(r, Err(ErrorCode::InsufficientFunds));
    assert_eq!(ctx.payer_lamports, 5_999_999_999);
    assert_eq!(ctx.destination.amount, 0);
    assert_eq!(ctx.config.lamports, 890_880);
}

#[test]
fn purchase_moves_exactly_the_cost_and_mints_exactly_the_quantity() {
    let mut ctx = sale_ctx(true, 4, 10_000_000_000);
    let r = purchase_tokens(&mut ctx, 2);
    assert_eq!(r, Ok(()));
    assert_eq!(TOKEN_PRICE, 2_000_000_000);
    assert_eq!(ctx.payer_lamports, 10_000_000_000 - 2 * TOKEN_PRICE);
    assert_eq!(ctx.config.lamports, 890_880 + 2 * TOKEN_PRICE);
    assert_eq!(ctx.destination.amount, 6);
    // untouched records
    assert_eq!(ctx.destination.owner, buyer());
    assert_eq!(ctx.config.owner, Identity { id: 1 });
    assert_eq!(ctx.config.minimum_reserve, 890_880);
}

#[test]
fn withdraw_by_non_owner_fails_and_leaves_custody_unchanged() {
    let mut ctx = Withdraw {
        config: Config { owner: Identity { id: 4 }, lamports: 1_000, minimum_reserve: 300 },
        owner: Identity { id: 5 },
        owner_lamports: 17,
    };
    let r = withdraw_lamports(&mut ctx);
    assert_eq!(r, Err(ErrorCode::InvalidOwner));
    assert_eq!(ctx.config.lamports, 1_000);
    assert_eq!(ctx.owner_lamports, 17);
}

#[test]
fn withdraw_moves_exactly_the_surplus_and_keeps_the_reserve() {
    let owner = Identity { id: 4 };
    let mut ctx = Withdraw {
        config: Config { owner, lamports: 1_000, minimum_reserve: 300 },
        owner,
        owner_lamports: 17,
    };
    let r = withdraw_lamports(&mut ctx);
    assert_eq!(r, Ok(()));
    assert_eq!(ctx.owner_lamports, 17 + 700);
    assert_eq!(ctx.config.lamports, 300);
    assert!(ctx.config.lamports >= ctx.config.minimum_reserve);
}

#[test]
fn withdraw_of_zero_surplus_fails() {
    let owner = Identity { id: 4 };
    let mut ctx = Withdraw {
        config: Config { owner, lamports: 300, minimum_reserve: 300 },
        owner,
        owner_lamports: 17,
    };
    let r = withdraw_lamports(&mut ctx);
    assert_eq!(r, Err(ErrorCode::InsufficientFunds));
    assert_eq!(ctx.config.lamports, 300);
    assert_eq!(ctx.owner_lamports, 17);
}

#[test]
fn transfer_moves_exactly_the_amount() {
    let mut from: u64 = 1_000;
    let mut to: u64 = 50;
    let r = transfer_funds(&mut from, &mut to, 400);
    assert_eq!(r, Ok(()));
    assert_eq!(from, 600);
    assert_eq!(to, 450);
}

#[test]
fn transfer_without_funds_fails_and_moves_nothing() {
    let mut from: u64 = 399;
    let mut to: u64 = 50;
    let r = transfer_funds(&mut from, &mut to, 400);
    assert_eq!(r, Err(ErrorCode::InsufficientFunds));
    assert_eq!(from, 399);
    assert_eq!(to, 50);
}
