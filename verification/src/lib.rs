//! A ledger-resident, whitelist-gated token-sale engine.
//!
//! The engine mints a fungible token, restricts purchases to a bounded set of
//! pre-approved identities, enforces a per-buyer holding cap, custodies the
//! collected proceeds under an owner-controlled record, and exposes controlled
//! withdrawal and transfer of those funds. Each operation is a single atomic
//! transition over the records it names: it either commits all of its
//! mutations or leaves every record untouched, and its contract states exactly
//! which of the two happened and why.

use vstd::prelude::*;

pub mod errors;
pub mod identity;
pub mod instructions;
pub mod records;

use crate::errors::ErrorCode;
use crate::identity::Identity;
use crate::identity::MINT_LABEL;
use crate::instructions::init::InitToken;
use crate::instructions::init::InitTokenParams;
use crate::instructions::init::MetadataDescriptor;
use crate::instructions::purchase::purchase_cost;
use crate::instructions::purchase::PurchaseToken;
use crate::instructions::transfer_funds::Withdraw;
use crate::instructions::whitelist::with_member;
use crate::instructions::whitelist::without_member;
use crate::instructions::whitelist::ManageWhitelist;
use crate::instructions::whitelist::WHITELIST_CAPACITY;

verus! {

/// Price of one token of the sale, in minor units of the native currency.
pub const TOKEN_PRICE: u64 = 2_000_000_000;

/// The largest token balance any single buyer may hold.
pub const PURCHASE_LIMIT: u64 = 100;

/// Entry point of sale initialization: creates the mint singleton and the
/// seeded whitelist registry, and hands back the descriptor to register with
/// the external metadata service.
pub fn init_token(ctx: &mut InitToken, metadata: InitTokenParams) -> (r: Result<
    MetadataDescriptor,
    ErrorCode,
>)
    ensures
        final(ctx).program == old(ctx).program,
        final(ctx).payer == old(ctx).payer,
        r.is_ok() <==> (old(ctx).mint is None && old(ctx).whitelist is None),
        r.is_err() ==> (r == Err::<MetadataDescriptor, ErrorCode>(ErrorCode::AlreadyInitialized)
            && final(ctx).mint == old(ctx).mint && final(ctx).whitelist == old(ctx).whitelist),
        r.is_ok() ==> (final(ctx).mint matches Some(m) && m.wf()
            && m.address.id == (old(ctx).program.id ^ MINT_LABEL)
            && m.decimals == metadata.decimals),
        r.is_ok() ==> (final(ctx).whitelist matches Some(w) && w.wf() && w.members() == seq![
            old(ctx).payer,
        ]),
        r matches Ok(d) ==> (d.name@ == metadata.name@ && d.symbol@ == metadata.symbol@ && d.uri@
            == metadata.uri@ && d.seller_fee_basis_points == 0),
{
    instructions::init::init_token_(ctx, metadata)
}

/// Entry point of the gated purchase: sells `quantity` tokens to the buyer,
/// atomically moving the cost into custody and minting the tokens.
pub fn purchase_tokens(ctx: &mut PurchaseToken, quantity: u64) -> (r: Result<(), ErrorCode>)
    requires
        old(ctx).whitelist.wf(),
        old(ctx).mint.wf(),
        old(ctx).config.wf(),
        old(ctx).destination.owner == old(ctx).payer,
        1 <= quantity,
        old(ctx).destination.amount + quantity <= PURCHASE_LIMIT ==> old(ctx).config.lamports
            + purchase_cost(quantity) <= u64::MAX,
    ensures
        final(ctx).whitelist == old(ctx).whitelist,
        final(ctx).mint == old(ctx).mint,
        final(ctx).payer == old(ctx).payer,
        final(ctx).destination.owner == old(ctx).destination.owner,
        final(ctx).config.owner == old(ctx).config.owner,
        final(ctx).config.minimum_reserve == old(ctx).config.minimum_reserve,
        final(ctx).config.wf(),
        r.is_ok() <==> (old(ctx).whitelist.is_member(old(ctx).payer)
            && old(ctx).destination.amount + quantity <= PURCHASE_LIMIT
            && old(ctx).payer_lamports >= purchase_cost(quantity)),
        r == Err::<(), ErrorCode>(ErrorCode::NotWhitelisted)
            <==> !old(ctx).whitelist.is_member(old(ctx).payer),
        r == Err::<(), ErrorCode>(ErrorCode::PurchaseLimitExceeded)
            <==> (old(ctx).whitelist.is_member(old(ctx).payer)
            && old(ctx).destination.amount + quantity > PURCHASE_LIMIT),
        r == Err::<(), ErrorCode>(ErrorCode::InsufficientFunds)
            <==> (old(ctx).whitelist.is_member(old(ctx).payer)
            && old(ctx).destination.amount + quantity <= PURCHASE_LIMIT
            && old(ctx).payer_lamports < purchase_cost(quantity)),
        r.is_ok() ==> (final(ctx).payer_lamports
            == old(ctx).payer_lamports - purchase_cost(quantity)
            && final(ctx).config.lamports == old(ctx).config.lamports + purchase_cost(quantity)
            && final(ctx).destination.amount == old(ctx).destination.amount + quantity),
        r.is_err() ==> (final(ctx).payer_lamports == old(ctx).payer_lamports
            && final(ctx).config == old(ctx).config
            && final(ctx).destination == old(ctx).destination),
{
    instructions::purchase::purchase_tokens_(ctx, quantity)
}

/// Entry point of whitelist enrollment: any current member may enroll any
/// identity, up to the registry's capacity.
pub fn add_to_whitelist(ctx: &mut ManageWhitelist, user: Identity) -> (r: Result<(), ErrorCode>)
    requires
        old(ctx).whitelist.wf(),
    ensures
        final(ctx).authority == old(ctx).authority,
        final(ctx).whitelist.wf(),
        r.is_ok() <==> (old(ctx).whitelist.is_member(old(ctx).authority)
            && (old(ctx).whitelist.is_member(user)
            || old(ctx).whitelist.members().len() < WHITELIST_CAPACITY)),
        r == Err::<(), ErrorCode>(ErrorCode::NotWhitelisted)
            <==> !old(ctx).whitelist.is_member(old(ctx).authority),
        r == Err::<(), ErrorCode>(ErrorCode::RegistryFull)
            <==> (old(ctx).whitelist.is_member(old(ctx).authority)
            && !old(ctx).whitelist.is_member(user)
            && old(ctx).whitelist.members().len() >= WHITELIST_CAPACITY),
        r.is_ok() ==> final(ctx).whitelist.members() == with_member(
            old(ctx).whitelist.members(),
            user,
        ),
        r.is_ok() ==> final(ctx).whitelist.is_member(user),
        r.is_ok() ==> forall|x: Identity|
            final(ctx).whitelist.is_member(x) <==> (old(ctx).whitelist.is_member(x) || x == user),
        r.is_err() ==> final(ctx).whitelist == old(ctx).whitelist,
{
    instructions::whitelist::add_to_whitelist_(ctx, user)
}

/// Entry point of whitelist removal: any current member may strike any
/// identity; striking an absent one succeeds and changes nothing.
pub fn remove_from_whitelist(ctx: &mut ManageWhitelist, user: Identity) -> (r: Result<
    (),
    ErrorCode,
>)
    requires
        old(ctx).whitelist.wf(),
    ensures
        final(ctx).authority == old(ctx).authority,
        final(ctx).whitelist.wf(),
        r.is_ok() <==> old(ctx).whitelist.is_member(old(ctx).authority),
        r == Err::<(), ErrorCode>(ErrorCode::NotWhitelisted)
            <==> !old(ctx).whitelist.is_member(old(ctx).authority),
        r.is_ok() ==> final(ctx).whitelist.members() == without_member(
            old(ctx).whitelist.members(),
            user,
        ),
        r.is_ok() ==> !final(ctx).whitelist.is_member(user),
        r.is_ok() ==> forall|x: Identity|
            final(ctx).whitelist.is_member(x) <==> (old(ctx).whitelist.is_member(x) && x != user),
        r.is_err() ==> final(ctx).whitelist == old(ctx).whitelist,
{
    instructions::whitelist::remove_from_whitelist_(ctx, user)
}

/// Entry point of custody withdrawal: moves the surplus above the reserve to
/// the recorded owner, and only to it.
pub fn withdraw_lamports(ctx: &mut Withdraw) -> (r: Result<(), ErrorCode>)
    requires
        old(ctx).config.wf(),
        old(ctx).owner_lamports + (old(ctx).config.lamports - old(ctx).config.minimum_reserve)
            <= u64::MAX,
    ensures
        final(ctx).owner == old(ctx).owner,
        final(ctx).config.owner == old(ctx).config.owner,
        final(ctx).config.minimum_reserve == old(ctx).config.minimum_reserve,
        final(ctx).config.wf(),
        r.is_ok() <==> (old(ctx).owner == old(ctx).config.owner
            && old(ctx).config.lamports > old(ctx).config.minimum_reserve),
        r == Err::<(), ErrorCode>(ErrorCode::InvalidOwner)
            <==> old(ctx).owner != old(ctx).config.owner,
        r == Err::<(), ErrorCode>(ErrorCode::InsufficientFunds)
            <==> (old(ctx).owner == old(ctx).config.owner
            && old(ctx).config.lamports == old(ctx).config.minimum_reserve),
        r.is_ok() ==> (final(ctx).config.lamports == old(ctx).config.minimum_reserve
            && final(ctx).owner_lamports == old(ctx).owner_lamports
            + (old(ctx).config.lamports - old(ctx).config.minimum_reserve)),
        r.is_err() ==> (final(ctx).config == old(ctx).config
            && final(ctx).owner_lamports == old(ctx).owner_lamports),
{
    instructions::transfer_funds::withdraw_lamports_(ctx)
}

} // verus!
