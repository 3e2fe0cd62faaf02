use whitelist_sale::identity::Identity;
use whitelist_sale::records::Config;
use whitelist_sale::records::MintSingleton;
use whitelist_sale::records::TokenAccount;

#[test]
fn a_new_mint_is_its_own_authority() {
    let mint = MintSingleton::new(Identity { id: 12 }, 6);
    assert!(mint.is_self_authority());
    assert_eq!(mint.authority, Identity { id: 12 });
    assert_eq!(mint.decimals, 6);
}

#[test]
fn a_foreign_authority_fails_the_structural_check() {
    let mint = MintSingleton {
        address: Identity { id: 12 },
        authority: Identity { id: 13 },
        decimals: 6,
    };
    assert!(!mint.is_self_authority());
}

#[test]
fn minting_credits_exactly_the_amount() {
    let mint = MintSingleton::new(Identity { id: 12 }, 6);
    let mut account = TokenAccount::new(Identity { id: 30 });
    assert_eq!(account.amount, 0);
    mint.mint_to(&mut account, 41);
    mint.mint_to(&mut account, 1);
    assert_eq!(account.amount, 42);
    assert_eq!(account.owner, Identity { id: 30 });
}

#[test]
fn a_new_custody_record_starts_at_its_reserve() {
    let config = Config::new(Identity { id: 2 }, 890_880);
    assert_eq!(config.owner, Identity { id: 2 });
    assert_eq!(config.lamports, 890_880);
    assert_eq!(config.minimum_reserve, 890_880);
}
