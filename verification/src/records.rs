use vstd::prelude::*;

use crate::identity::Identity;

verus! {

/// The single token-supply authority record of a deployment.
///
/// It is created exactly once, at a well-known slot, and is never destroyed.
/// Its authority reference is the record itself: the mint signs for itself
/// through its deterministic derivation, so the authorization to mint is
/// checked structurally, by address equality, not by a held secret.
#[derive(Clone, Copy, Debug, PartialEq, Eq, Structural)]
pub struct MintSingleton {
    /// The well-known slot this record lives at.
    pub address: Identity,
    /// The identity allowed to increase the supply.
    pub authority: Identity,
    /// Decimal precision of the token.
    pub decimals: u8,
}

impl MintSingleton {
    /// A well-formed mint is self-sovereign: its authority is itself.
    pub open spec fn wf(self) -> bool {
        self.authority == self.address
    }

    /// Creates the self-sovereign supply authority at `address`.
    pub fn new(address: Identity, decimals: u8) -> (m: MintSingleton)
        ensures
            m.wf(),
            m.address == address,
            m.decimals == decimals,
    {
        MintSingleton { address, authority: address, decimals }
    }

    /// The structural capability check: this record may mint exactly when its
    /// recorded authority is the record itself.
    pub fn is_self_authority(&self) -> (b: bool)
        ensures
            b == self.wf(),
    {
        self.authority == self.address
    }

    /// Credits `amount` freshly minted tokens to `destination`.
    ///
    /// This is the privileged supply increase: it demands the structural
    /// authority proof of a well-formed mint and changes nothing but the
    /// destination's balance.
    pub fn mint_to(&self, destination: &mut TokenAccount, amount: u64)
        requires
            self.wf(),
            old(destination).amount + amount <= u64::MAX,
        ensures
            final(destination).owner == old(destination).owner,
            final(destination).amount == old(destination).amount + amount,
    {
        destination.amount = destination.amount + amount;
    }
}

/// A per-(buyer, mint) record holding that buyer's token balance.
///
/// Created lazily, on the buyer's first purchase, and owned by the buyer.
#[derive(Clone, Copy, Debug, PartialEq, Eq, Structural)]
pub struct TokenAccount {
    /// The buyer that owns this record.
    pub owner: Identity,
    /// The tokens the buyer holds.
    pub amount: u64,
}

impl TokenAccount {
    /// Creates the empty token record a buyer starts with.
    pub fn new(owner: Identity) -> (a: TokenAccount)
        ensures
            a.owner == owner,
            a.amount == 0,
    {
        TokenAccount { owner, amount: 0 }
    }
}

/// The custody record of the sale: it collects the currency paid for tokens
/// and releases it only to its recorded owner.
///
/// The record must keep `minimum_reserve` currency to stay allocated in the
/// hosting runtime, so a withdrawal moves only the surplus above the reserve.
#[derive(Clone, Copy, Debug, PartialEq, Eq, Structural)]
pub struct Config {
    /// The only identity allowed to withdraw collected funds.
    pub owner: Identity,
    /// The currency the record currently holds, reserve included.
    pub lamports: u64,
    /// The currency the record must retain to remain allocated.
    pub minimum_reserve: u64,
}

impl Config {
    /// A well-formed custody record never holds less than its reserve.
    pub open spec fn wf(self) -> bool {
        self.lamports >= self.minimum_reserve
    }

    /// Creates the custody record, funded with exactly its reserve.
    pub fn new(owner: Identity, minimum_reserve: u64) -> (c: Config)
        ensures
            c.wf(),
            c.owner == owner,
            c.lamports == minimum_reserve,
            c.minimum_reserve == minimum_reserve,
    {
        Config { owner, lamports: minimum_reserve, minimum_reserve }
    }
}

} // verus!
