use vstd::prelude::*;

use crate::errors::ErrorCode;
use crate::identity::Identity;
use crate::instructions::transfer_funds::transfer_funds;
use crate::instructions::whitelist::Whitelist;
use crate::records::Config;
use crate::records::MintSingleton;
use crate::records::TokenAccount;
use crate::PURCHASE_LIMIT;
use crate::TOKEN_PRICE;

verus! {

/// The records one purchase names: the supply authority, the buyer's token
/// record, the registry consulted for authorization, the buyer, the buyer's
/// currency balance, and the custody record the proceeds go to.
pub struct PurchaseToken {
    /// The supply authority that signs for the minted tokens.
    pub mint: MintSingleton,
    /// The buyer's token record, credited on success.
    pub destination: TokenAccount,
    /// The registry that authorizes the buyer.
    pub whitelist: Whitelist,
    /// The buyer asking to purchase.
    pub payer: Identity,
    /// The currency balance of the buyer's record, debited on success.
    pub payer_lamports: u64,
    /// The custody record the proceeds move into.
    pub config: Config,
}

/// What a purchase of `quantity` tokens costs, in minor units of the native
/// currency.
pub open spec fn purchase_cost(quantity: u64) -> int {
    TOKEN_PRICE * quantity
}

/// Sells `quantity` tokens to the buyer.
///
/// The transition authorizes the buyer against the registry, holds the
/// buyer's balance under the per-buyer cap, checks the funds, and then
/// commits atomically: the cost moves from the buyer's currency balance into
/// custody and the buyer's token balance grows by exactly `quantity` — or, on
/// any failure, neither happens.
pub fn purchase_tokens_(ctx: &mut PurchaseToken, quantity: u64) -> (r: Result<(), ErrorCode>)
    requires
        old(ctx).whitelist.wf(),
        old(ctx).mint.wf(),
        old(ctx).config.wf(),
        old(ctx).destination.owner == old(ctx).payer,
        1 <= quantity,
        old(ctx).destination.amount + quantity <= PURCHASE_LIMIT ==> old(ctx).config.lamports
            + purchase_cost(quantity) <= u64::MAX,
    ensures
        final(ctx).whitelist == old(ctx).whitelist,
        final(ctx).mint == old(ctx).mint,
        final(ctx).payer == old(ctx).payer,
        final(ctx).destination.owner == old(ctx).destination.owner,
        final(ctx).config.owner == old(ctx).config.owner,
        final(ctx).config.minimum_reserve == old(ctx).config.minimum_reserve,
        final(ctx).config.wf(),
        r.is_ok() <==> (old(ctx).whitelist.is_member(old(ctx).payer)
            && old(ctx).destination.amount + quantity <= PURCHASE_LIMIT
            && old(ctx).payer_lamports >= purchase_cost(quantity)),
        r == Err::<(), ErrorCode>(ErrorCode::NotWhitelisted)
            <==> !old(ctx).whitelist.is_member(old(ctx).payer),
        r == Err::<(), ErrorCode>(ErrorCode::PurchaseLimitExceeded)
            <==> (old(ctx).whitelist.is_member(old(ctx).payer)
            && old(ctx).destination.amount + quantity > PURCHASE_LIMIT),
        r == Err::<(), ErrorCode>(ErrorCode::InsufficientFunds)
            <==> (old(ctx).whitelist.is_member(old(ctx).payer)
            && old(ctx).destination.amount + quantity <= PURCHASE_LIMIT
            && old(ctx).payer_lamports < purchase_cost(quantity)),
        r.is_ok() ==> (final(ctx).payer_lamports
            == old(ctx).payer_lamports - purchase_cost(quantity)
            && final(ctx).config.lamports == old(ctx).config.lamports + purchase_cost(quantity)
            && final(ctx).destination.amount == old(ctx).destination.amount + quantity),
        r.is_err() ==> (final(ctx).payer_lamports == old(ctx).payer_lamports
            && final(ctx).config == old(ctx).config
            && final(ctx).destination == old(ctx).destination),
{
    if !ctx.whitelist.contains_user(ctx.payer) {
        return Err(ErrorCode::NotWhitelisted);
    }
    if quantity > PURCHASE_LIMIT || ctx.destination.amount > PURCHASE_LIMIT - quantity {
        return Err(ErrorCode::PurchaseLimitExceeded);
    }
    let cost: u64 = TOKEN_PRICE * quantity;
    if ctx.payer_lamports < cost {
        return Err(ErrorCode::InsufficientFunds);
    }
    // stage the currency transfer into custody, then the privileged supply
    // increase; the funds check above means the transfer cannot fail, so the
    // two mutations commit together
    transfer_funds(&mut ctx.payer_lamports, &mut ctx.config.lamports, cost)?;
    ctx.mint.mint_to(&mut ctx.destination, quantity);
    Ok(())
}

} // verus!
