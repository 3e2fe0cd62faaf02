use vstd::prelude::*;

use crate::errors::ErrorCode;
use crate::identity::derive_address;
use crate::identity::Identity;
use crate::identity::MINT_LABEL;
use crate::instructions::whitelist::Whitelist;
use crate::records::MintSingleton;

verus! {

/// The transient descriptive fields of the token, handed in at
/// initialization: a human-readable name, a ticker symbol, a resource locator
/// for richer metadata, and the decimal precision of the mint.
#[derive(Clone, Debug)]
pub struct InitTokenParams {
    pub name: String,
    pub symbol: String,
    pub uri: String,
    pub decimals: u8,
}

/// What the external metadata service is asked to attach to the new mint:
/// the descriptive fields as given, with no seller fee.
#[derive(Clone, Debug)]
pub struct MetadataDescriptor {
    pub name: String,
    pub symbol: String,
    pub uri: String,
    pub seller_fee_basis_points: u16,
}

/// The records one initialization names: the program identity the well-known
/// slots derive from, the initializing identity, and the two slots to fill.
pub struct InitToken {
    /// The program identity the well-known slots derive from.
    pub program: Identity,
    /// The initializing identity, enrolled as the first whitelist member.
    pub payer: Identity,
    /// The well-known slot that holds the mint singleton once created.
    pub mint: Option<MintSingleton>,
    /// The well-known slot that holds the whitelist registry once created.
    pub whitelist: Option<Whitelist>,
}

/// Creates the sale: the self-sovereign mint singleton at its well-known
/// slot, and the whitelist registry seeded with the initializing identity.
///
/// On success it hands back the descriptor the caller must register with the
/// external metadata service; a failure of that external call discards the
/// whole transition, so no partial state survives it. Re-running the
/// initialization fails: both slots must be unallocated.
pub fn init_token_(ctx: &mut InitToken, metadata: InitTokenParams) -> (r: Result<
    MetadataDescriptor,
    ErrorCode,
>)
    ensures
        final(ctx).program == old(ctx).program,
        final(ctx).payer == old(ctx).payer,
        r.is_ok() <==> (old(ctx).mint is None && old(ctx).whitelist is None),
        r.is_err() ==> (r == Err::<MetadataDescriptor, ErrorCode>(ErrorCode::AlreadyInitialized)
            && final(ctx).mint == old(ctx).mint && final(ctx).whitelist == old(ctx).whitelist),
        r.is_ok() ==> (final(ctx).mint matches Some(m) && m.wf()
            && m.address.id == (old(ctx).program.id ^ MINT_LABEL)
            && m.decimals == metadata.decimals),
        r.is_ok() ==> (final(ctx).whitelist matches Some(w) && w.wf() && w.members() == seq![
            old(ctx).payer,
        ]),
        r matches Ok(d) ==> (d.name@ == metadata.name@ && d.symbol@ == metadata.symbol@ && d.uri@
            == metadata.uri@ && d.seller_fee_basis_points == 0),
{
    if ctx.mint.is_some() || ctx.whitelist.is_some() {
        return Err(ErrorCode::AlreadyInitialized);
    }
    let mint_address = derive_address(ctx.program, MINT_LABEL);
    ctx.mint = Some(MintSingleton::new(mint_address, metadata.decimals));
    let mut registry = Whitelist::new();
    registry.users.push(ctx.payer);
    proof {
        assert(registry.members() =~= seq![old(ctx).payer]);
    }
    ctx.whitelist = Some(registry);
    Ok(
        MetadataDescriptor {
            name: metadata.name,
            symbol: metadata.symbol,
            uri: metadata.uri,
            seller_fee_basis_points: 0,
        },
    )
}

} // verus!
