use vstd::prelude::*;

verus! {

/// A unique, unforgeable reference to a caller or record, analogous to a
/// public key. Two records or callers are the same exactly when their
/// identities are equal.
#[derive(Clone, Copy, Debug, PartialEq, Eq, Structural)]
pub struct Identity {
    pub id: u64,
}

/// The static label from which the mint singleton's well-known slot derives.
pub const MINT_LABEL: u64 = 1;

/// The static label from which the whitelist registry's well-known slot derives.
pub const WHITELIST_LABEL: u64 = 2;

/// The deterministic, well-known storage slot that a static label names under
/// a given program identity. Future operations can relocate the records placed
/// at these slots without a lookup table.
pub fn derive_address(program: Identity, label: u64) -> (r: Identity)
    ensures
        r.id == program.id ^ label,
{
    Identity { id: program.id ^ label }
}

/// Under one program identity, distinct static labels name distinct slots, so
/// the records placed at them can never collide.
pub proof fn lemma_derive_address_distinct(program: Identity, label_a: u64, label_b: u64)
    requires
        label_a != label_b,
    ensures
        program.id ^ label_a != program.id ^ label_b,
{
    let p = program.id;
    assert(p ^ label_a != p ^ label_b) by (bit_vector)
        requires
            label_a != label_b,
    ;
}

} // verus!
