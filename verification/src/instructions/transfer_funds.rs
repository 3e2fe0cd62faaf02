use vstd::prelude::*;

use crate::errors::ErrorCode;
use crate::identity::Identity;
use crate::records::Config;

verus! {

/// The records one withdrawal names: the custody record, the identity that
/// signed the request, and the currency balance of that caller's own record.
pub struct Withdraw {
    /// The custody record the funds leave.
    pub config: Config,
    /// The caller asking to withdraw.
    pub owner: Identity,
    /// The currency balance of the caller's own record.
    pub owner_lamports: u64,
}

/// A general signed transfer: moves `amount` currency from one record to
/// another. The hosting runtime authorizes it solely by the sending record
/// owner's signature, which it checks before this transition runs; the
/// transition itself only demands that the funds are there.
pub fn transfer_funds(from_lamports: &mut u64, to_lamports: &mut u64, amount: u64) -> (r: Result<
    (),
    ErrorCode,
>)
    requires
        1 <= amount,
        *old(to_lamports) + amount <= u64::MAX,
    ensures
        r.is_ok() <==> *old(from_lamports) >= amount,
        r == Err::<(), ErrorCode>(ErrorCode::InsufficientFunds) <==> *old(from_lamports) < amount,
        r.is_ok() ==> *final(from_lamports) == *old(from_lamports) - amount && *final(to_lamports)
            == *old(to_lamports) + amount,
        r.is_err() ==> *final(from_lamports) == *old(from_lamports) && *final(to_lamports) == *old(
            to_lamports,
        ),
{
    if *from_lamports < amount {
        return Err(ErrorCode::InsufficientFunds);
    }
    *from_lamports = *from_lamports - amount;
    *to_lamports = *to_lamports + amount;
    Ok(())
}

/// Withdraws the surplus above the reserve from the custody record to its
/// owner.
///
/// Only the identity recorded as the custody owner may withdraw, and the
/// custody record keeps its minimum reserve: the withdrawal moves exactly the
/// surplus, and fails when there is none.
pub fn withdraw_lamports_(ctx: &mut Withdraw) -> (r: Result<(), ErrorCode>)
    requires
        old(ctx).config.wf(),
        old(ctx).owner_lamports + (old(ctx).config.lamports - old(ctx).config.minimum_reserve)
            <= u64::MAX,
    ensures
        final(ctx).owner == old(ctx).owner,
        final(ctx).config.owner == old(ctx).config.owner,
        final(ctx).config.minimum_reserve == old(ctx).config.minimum_reserve,
        final(ctx).config.wf(),
        r.is_ok() <==> (old(ctx).owner == old(ctx).config.owner
            && old(ctx).config.lamports > old(ctx).config.minimum_reserve),
        r == Err::<(), ErrorCode>(ErrorCode::InvalidOwner)
            <==> old(ctx).owner != old(ctx).config.owner,
        r == Err::<(), ErrorCode>(ErrorCode::InsufficientFunds)
            <==> (old(ctx).owner == old(ctx).config.owner
            && old(ctx).config.lamports == old(ctx).config.minimum_reserve),
        r.is_ok() ==> (final(ctx).config.lamports == old(ctx).config.minimum_reserve
            && final(ctx).owner_lamports == old(ctx).owner_lamports
            + (old(ctx).config.lamports - old(ctx).config.minimum_reserve)),
        r.is_err() ==> (final(ctx).config == old(ctx).config
            && final(ctx).owner_lamports == old(ctx).owner_lamports),
{
    if ctx.config.owner != ctx.owner {
        return Err(ErrorCode::InvalidOwner);
    }
    let amount: u64 = ctx.config.lamports - ctx.config.minimum_reserve;
    if amount == 0 {
        return Err(ErrorCode::InsufficientFunds);
    }
    ctx.config.lamports = ctx.config.lamports - amount;
    ctx.owner_lamports = ctx.owner_lamports + amount;
    Ok(())
}

} // verus!
