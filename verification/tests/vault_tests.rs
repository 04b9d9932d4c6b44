use scrypto::prelude::{ResourceAddress, ACCOUNT_OWNER_BADGE, I192, XRD};
use stable_coin_vault::{
    Decimal, Holder, IdType, MetadataLookup, ResourceCall, ResourceKind, RoleBadge, Role,
    StableCoinVault, TokenBucket, VaultError, VaultSetup,
};

type SDecimal = scrypto::prelude::Decimal;

fn sdec(n: u64) -> SDecimal {
    SDecimal::from(n)
}

fn to_model(d: SDecimal) -> Decimal {
    let x = d.attos().to_digits();
    Decimal { lo: x[0], mid: x[1], hi: x[2] }
}

fn from_model(d: Decimal) -> SDecimal {
    SDecimal::from_attos(I192::from_digits([d.lo, d.mid, d.hi]))
}

fn dec(n: u64) -> Decimal {
    Decimal::from_u64(n)
}

fn token() -> ResourceAddress {
    ACCOUNT_OWNER_BADGE
}

fn strings(items: &[&str]) -> Vec<String> {
    items.iter().map(|s| s.to_string()).collect()
}

fn vault_with(vault: u64, supply: u64) -> StableCoinVault {
    StableCoinVault {
        token: token(),
        vault_amount: dec(vault),
        total_supply: dec(supply),
        version: 1,
    }
}

const MINUS_ONE_ATTO: Decimal = Decimal { lo: u64::MAX, mid: u64::MAX, hi: u64::MAX };
const MAX: Decimal = Decimal { lo: u64::MAX, mid: u64::MAX, hi: i64::MAX as u64 };
const MIN: Decimal = Decimal { lo: 0, mid: 0, hi: 1 << 63 };

/// The ledger balance the caller gets of the badge created `index`-th.
fn caller_badge_balance(setup: &VaultSetup, index: usize) -> SDecimal {
    let badge = &setup.badges[index];
    match badge.holder {
        Holder::Caller => SDecimal::from(badge.initial_supply),
        Holder::Component => SDecimal::ZERO,
    }
}

/// The amount the component keeps of the badge created `index`-th.
fn component_badge_balance(setup: &VaultSetup, index: usize) -> SDecimal {
    let badge = &setup.badges[index];
    match badge.holder {
        Holder::Caller => SDecimal::ZERO,
        Holder::Component => SDecimal::from(badge.initial_supply),
    }
}

#[test]
fn test_stablecoin() {
    let total_supply_original = sdec(1000000);
    let mut u1token_exp = sdec(0);
    let mut u2token_exp = sdec(0);
    let mut v1token_exp = total_supply_original;

    let keys_owned = strings(&["name", "symbol", "icon_url", "url", "author", "stage"]);
    let values_owned = strings(&[
        "USD Tether",
        "USDT",
        "https://token_website.com/icon.ico",
        "https://token_website.com",
        "Xman",
        "stage 1 - Fixed supply, withdraw may be restricted",
    ]);
    let setup = StableCoinVault::new(
        to_model(total_supply_original),
        keys_owned.clone(),
        values_owned.clone(),
        XRD,
    );
    // the badges, then the token
    let resources_len = setup.badges.len() + 1;
    assert_eq!(resources_len, 4);

    let u1admin_badge = caller_badge_balance(&setup, 0);
    let u1wd_badge = caller_badge_balance(&setup, 1);
    let u1auth_badge = caller_badge_balance(&setup, 2);
    assert_eq!(u1admin_badge, sdec(3));
    assert_eq!(u1wd_badge, sdec(2));
    assert_eq!(u1auth_badge, sdec(0));

    let v1auth_badge = component_badge_balance(&setup, 2);
    assert_eq!(v1auth_badge, sdec(1));

    let mut vault = setup.into_vault(token());
    let mut u1token = sdec(0);
    let mut u2token = sdec(0);
    let v1token = from_model(vault.get_vault_data().1);
    assert_eq!(v1token, v1token_exp);

    // mint_to_bucket
    let amount = sdec(1000);
    assert_eq!(vault.check_mint_to_bucket(to_model(amount)), Ok(()));
    u1token = u1token + from_model(vault.mint_to_bucket(to_model(amount)));
    assert_eq!(u1token, amount);
    u1token_exp = u1token;
    let v1token = from_model(vault.get_vault_data().1);
    assert_eq!(v1token, total_supply_original);
    v1token_exp = total_supply_original;

    // sending tokens from user1 to user2 moves them between accounts only
    let amount = sdec(123);
    u1token = u1token - amount;
    u2token = u2token + amount;
    assert_eq!(u1token, u1token_exp - amount);
    u1token_exp = u1token;
    assert_eq!(u2token, u2token_exp + amount);
    u2token_exp = u2token;
    assert_eq!(u2token_exp, sdec(123));

    // mint_to_vault
    let amount = sdec(1000);
    assert_eq!(vault.check_mint_to_vault(to_model(amount)), Ok(()));
    vault.mint_to_vault(to_model(amount));
    let v1token = from_model(vault.get_vault_data().1);
    assert_eq!(v1token, v1token_exp + amount);
    v1token_exp = v1token;

    // withdraw_to_bucket
    let amount = sdec(937);
    assert_eq!(vault.check_withdraw_to_bucket(to_model(amount)), Ok(()));
    u1token = u1token + from_model(vault.withdraw_to_bucket(to_model(amount)));
    let v1token = from_model(vault.get_vault_data().1);
    assert_eq!(v1token, v1token_exp - amount);
    v1token_exp = v1token;
    assert_eq!(u1token, u1token_exp + amount);
    u1token_exp = u1token;

    // deposit
    let amount = sdec(37);
    let bucket = TokenBucket { resource: token(), amount: to_model(amount) };
    assert_eq!(vault.check_deposit_to_vault(bucket), Ok(()));
    u1token = u1token - from_model(vault.deposit_to_vault(bucket));
    let v1token = from_model(vault.get_vault_data().1);
    assert_eq!(v1token, v1token_exp + amount);
    v1token_exp = v1token;
    assert_eq!(u1token, u1token_exp - amount);
    u1token_exp = u1token;

    // burn_in_vault
    let amount = sdec(100);
    assert_eq!(vault.check_burn_in_vault(to_model(amount)), Ok(()));
    vault.burn_in_vault(to_model(amount));
    let v1token = from_model(vault.get_vault_data().1);
    assert_eq!(v1token, v1token_exp - amount);
    v1token_exp = v1token;

    // burn_in_bucket
    let amount = sdec(12);
    let bucket = TokenBucket { resource: token(), amount: to_model(amount) };
    assert_eq!(vault.check_burn_in_bucket(bucket), Ok(()));
    u1token = u1token - from_model(vault.burn_in_bucket(bucket));
    assert_eq!(u1token, u1token_exp - amount);
    u1token_exp = u1token;

    assert_eq!(u1token_exp, sdec(1000 - 123 + 937 - 37 - 12));
    assert_eq!(v1token_exp, sdec(1000000 + 1000 - 937 + 37 - 100));
    assert_eq!(from_model(vault.get_vault_data().2), sdec(1000000 + 1000 + 1000 - 100 - 12));
}

#[test]
fn whole_tokens_are_counted_in_attos() {
    assert_eq!(dec(1), Decimal { lo: 1_000_000_000_000_000_000, mid: 0, hi: 0 });
    assert_eq!(dec(0), Decimal::zero());
    let big = dec(u64::MAX);
    let attos = (u64::MAX as u128) * 1_000_000_000_000_000_000u128;
    assert_eq!(big, Decimal { lo: attos as u64, mid: (attos >> 64) as u64, hi: 0 });
}


#[test]
fn model_and_scrypto_decimals_agree() {
    assert_eq!(to_model(sdec(42)), dec(42));
    assert_eq!(from_model(dec(42)), sdec(42));
    assert_eq!(from_model(MINUS_ONE_ATTO), SDecimal::from_attos(I192::from(-1)));
    assert_eq!(from_model(MAX), SDecimal::MAX);
    assert_eq!(from_model(MIN), SDecimal::MIN);
}

#[test]
fn free_token_hands_out_one_token() {
    let mut v = vault_with(5, 5);
    assert_eq!(v.check_take_one(), Ok(()));
    assert_eq!(v.free_token(), dec(1));
    assert_eq!(v.vault_amount, dec(4));
    assert_eq!(v.total_supply, dec(5));
}

#[test]
fn free_token_refused_below_one_token() {
    let mut v = vault_with(0, 5);
    v.vault_amount = Decimal { lo: 999_999_999_999_999_999, mid: 0, hi: 0 };
    assert_eq!(v.check_take_one(), Err(VaultError::InsufficientFunds));
}

#[test]
fn buy_hands_out_one_token() {
    let mut v = vault_with(2, 2);
    let funds = TokenBucket { resource: XRD, amount: dec(10) };
    assert_eq!(v.buy(funds), dec(1));
    assert_eq!(v.vault_amount, dec(1));
    assert_eq!(v.buy(funds), dec(1));
    assert_eq!(v.check_take_one(), Err(VaultError::InsufficientFunds));
    assert_eq!(v.vault_amount, Decimal::zero());
}

#[test]
fn change_price_changes_nothing() {
    let mut v = vault_with(3, 4);
    v.change_price(dec(9));
    assert_eq!(v.get_vault_data(), (1, dec(3), dec(4)));
}

#[test]
fn mint_to_bucket_adds_to_supply() {
    let mut v = vault_with(7, 7);
    assert_eq!(v.check_mint_to_bucket(dec(3)), Ok(()));
    assert_eq!(v.mint_to_bucket(dec(3)), dec(3));
    assert_eq!(v.total_supply, dec(10));
    assert_eq!(v.vault_amount, dec(7));
}

#[test]
fn non_positive_amounts_are_refused() {
    let v = vault_with(7, 7);
    assert_eq!(v.check_mint_to_bucket(dec(0)), Err(VaultError::InvalidAmount));
    assert_eq!(v.check_mint_to_bucket(MINUS_ONE_ATTO), Err(VaultError::InvalidAmount));
    assert_eq!(v.check_mint_to_vault(dec(0)), Err(VaultError::InvalidAmount));
    assert_eq!(v.check_withdraw_to_bucket(MINUS_ONE_ATTO), Err(VaultError::InvalidAmount));
    assert_eq!(v.check_burn_in_vault(dec(0)), Err(VaultError::InvalidAmount));
}

#[test]
fn mint_refuses_overflow() {
    let mut v = vault_with(7, 7);
    v.total_supply = MAX;
    assert_eq!(v.check_mint_to_bucket(Decimal { lo: 1, mid: 0, hi: 0 }), Err(VaultError::Overflow));
    assert_eq!(v.check_mint_to_vault(dec(1)), Err(VaultError::Overflow));
    let mut w = vault_with(7, 7);
    w.vault_amount = MAX;
    assert_eq!(w.check_mint_to_vault(dec(1)), Err(VaultError::Overflow));
}

#[test]
fn mint_to_vault_adds_to_both() {
    let mut v = vault_with(7, 9);
    assert_eq!(v.check_mint_to_vault(dec(2)), Ok(()));
    assert_eq!(v.mint_to_vault(dec(2)), dec(2));
    assert_eq!(v.vault_amount, dec(9));
    assert_eq!(v.total_supply, dec(11));
}

#[test]
fn withdraw_is_bounded_by_the_vault() {
    let mut v = vault_with(10, 10);
    assert_eq!(v.check_withdraw_to_bucket(dec(11)), Err(VaultError::InsufficientFunds));
    assert_eq!(v.check_withdraw_to_bucket(dec(10)), Ok(()));
    assert_eq!(v.withdraw_to_bucket(dec(10)), dec(10));
    assert_eq!(v.vault_amount, Decimal::zero());
    assert_eq!(v.total_supply, dec(10));
}

#[test]
fn deposit_refuses_other_resources() {
    let v = vault_with(10, 10);
    let r = v.check_deposit_to_vault(TokenBucket { resource: XRD, amount: dec(1) });
    assert_eq!(r, Err(VaultError::MismatchingResource));
}

#[test]
fn deposit_refuses_overflow() {
    let mut v = vault_with(10, 10);
    v.vault_amount = MAX;
    let r = v.check_deposit_to_vault(TokenBucket { resource: token(), amount: dec(1) });
    assert_eq!(r, Err(VaultError::Overflow));
}

#[test]
fn deposit_adds_to_the_vault() {
    let mut v = vault_with(10, 20);
    let bucket = TokenBucket { resource: token(), amount: dec(5) };
    assert_eq!(v.check_deposit_to_vault(bucket), Ok(()));
    assert_eq!(v.deposit_to_vault(bucket), dec(5));
    assert_eq!(v.get_vault_data(), (1, dec(15), dec(20)));
}

#[test]
fn burn_in_vault_takes_from_both() {
    let mut v = vault_with(10, 20);
    assert_eq!(v.check_burn_in_vault(dec(11)), Err(VaultError::InsufficientFunds));
    assert_eq!(v.check_burn_in_vault(dec(4)), Ok(()));
    assert_eq!(v.burn_in_vault(dec(4)), dec(4));
    assert_eq!(v.get_vault_data(), (1, dec(6), dec(16)));
}

#[test]
fn burn_in_vault_refuses_overflow() {
    let mut v = vault_with(10, 20);
    v.total_supply = MIN;
    assert_eq!(v.check_burn_in_vault(dec(1)), Err(VaultError::Overflow));
}

#[test]
fn burn_in_bucket_checks_the_token() {
    let mut v = vault_with(10, 20);
    let other = TokenBucket { resource: XRD, amount: dec(1) };
    assert_eq!(v.check_burn_in_bucket(other), Err(VaultError::InvalidToken));
    let ours = TokenBucket { resource: token(), amount: dec(5) };
    assert_eq!(v.check_burn_in_bucket(ours), Ok(()));
    assert_eq!(v.burn_in_bucket(ours), dec(5));
    assert_eq!(v.get_vault_data(), (1, dec(10), dec(15)));
    v.total_supply = MIN;
    assert_eq!(v.check_burn_in_bucket(ours), Err(VaultError::Overflow));
}

#[test]
fn set_version_needs_version_three() {
    let mut v = vault_with(1, 1);
    assert_eq!(v.check_set_version(), Err(VaultError::InvalidVersion));
    v.version = 3;
    assert_eq!(v.check_set_version(), Ok(()));
    v.set_version(7);
    assert_eq!(v.version, 7);
    v.set_version(2);
    assert_eq!(v.check_set_version(), Err(VaultError::InvalidVersion));
}

#[test]
fn version_of_a_new_vault_never_changes() {
    let setup = StableCoinVault::new(dec(10), strings(&["a"; 6]), strings(&["b"; 6]), XRD);
    let mut v = setup.into_vault(token());
    v.mint_to_vault(dec(5));
    v.withdraw_to_bucket(dec(3));
    assert_eq!(v.check_set_version(), Err(VaultError::InvalidVersion));
    v.burn_in_vault(dec(1));
    assert_eq!(v.check_set_version(), Err(VaultError::InvalidVersion));
    assert_eq!(v.version, 1);
}

#[test]
fn withdraw_then_deposit_restores_the_vault() {
    let mut v = vault_with(10, 12);
    let out = v.withdraw_to_bucket(dec(4));
    v.deposit_to_vault(TokenBucket { resource: token(), amount: out });
    assert_eq!(v.get_vault_data(), (1, dec(10), dec(12)));
}

#[test]
fn mint_then_burn_restores_the_vault() {
    let mut v = vault_with(10, 12);
    v.mint_to_vault(dec(3));
    v.burn_in_vault(dec(3));
    assert_eq!(v.get_vault_data(), (1, dec(10), dec(12)));
    let minted = v.mint_to_bucket(dec(6));
    v.burn_in_bucket(TokenBucket { resource: token(), amount: minted });
    assert_eq!(v.get_vault_data(), (1, dec(10), dec(12)));
}

#[test]
fn tokens_outside_the_vault_follow_what_crosses_it() {
    let setup = StableCoinVault::new(dec(100), strings(&["k"; 6]), strings(&["v"; 6]), XRD);
    let mut v = setup.into_vault(token());
    v.free_token(); // out 1
    v.withdraw_to_bucket(dec(10)); // out 10
    v.mint_to_bucket(dec(5)); // out 5
    v.mint_to_vault(dec(7));
    v.deposit_to_vault(TokenBucket { resource: token(), amount: dec(4) }); // in 4
    v.burn_in_bucket(TokenBucket { resource: token(), amount: dec(2) }); // in 2
    v.burn_in_vault(dec(3));
    let (_, in_vault, supply) = v.get_vault_data();
    assert_eq!(in_vault, dec(100 - 1 - 10 + 7 + 4 - 3));
    assert_eq!(supply, dec(100 + 5 + 7 - 2 - 3));
    // outside = supply - vault = 1 + 10 + 5 - 4 - 2 = 10
    assert_eq!(from_model(supply) - from_model(in_vault), sdec(10));
    assert!(from_model(in_vault) <= from_model(supply));
}

#[test]
fn new_plans_badges_token_and_roles() {
    let keys = strings(&["name", "symbol", "icon_url", "url", "author", "stage", "extra"]);
    let values = strings(&["N", "S", "I", "U", "A", "T", "E"]);
    let setup = StableCoinVault::new(dec(42), keys, values, XRD);
    assert_eq!(setup.badges.len(), 3);
    let names = ["admin_badge", "super_admin", "auth_badge"];
    let supplies = [3u64, 2, 1];
    for i in 0..3 {
        let b = &setup.badges[i];
        assert_eq!(b.metadata.len(), 1);
        assert_eq!(b.metadata[0].key, "name");
        assert_eq!(b.metadata[0].value, names[i]);
        assert!(b.metadata[0].locked);
        assert_eq!(b.divisibility, 0);
        assert_eq!(b.initial_supply, supplies[i]);
    }
    assert_eq!(setup.badges[0].holder, Holder::Caller);
    assert_eq!(setup.badges[1].holder, Holder::Caller);
    assert_eq!(setup.badges[2].holder, Holder::Component);
    assert_eq!(setup.token.divisibility, 18);
    assert_eq!(setup.token.initial_supply, dec(42));
    assert_eq!(setup.token.metadata.len(), 6);
    assert_eq!(setup.token.metadata[5].key, "stage");
    assert_eq!(setup.token.metadata[5].value, "T");
    assert!(setup.token.metadata.iter().all(|e| e.locked));

    assert_eq!(setup.role_rules.len(), 3);
    assert_eq!(setup.role_rules[0].role, Role::Owner);
    assert!(matches!(setup.role_rules[0].badge, RoleBadge::Given(a) if a == XRD));
    assert_eq!(setup.role_rules[0].min_amount, None);
    assert_eq!(setup.role_rules[1].role, Role::SuperAdmin);
    assert!(matches!(setup.role_rules[1].badge, RoleBadge::Created(1)));
    assert_eq!(setup.role_rules[1].min_amount, Some(2));
    assert_eq!(setup.role_rules[2].role, Role::Admin);
    assert!(matches!(setup.role_rules[2].badge, RoleBadge::Created(0)));
    assert_eq!(setup.role_rules[2].min_amount, None);
    assert_eq!(setup.handed_back, vec![1, 0]);

    let v = setup.into_vault(token());
    assert_eq!(v.get_vault_data(), (1, dec(42), dec(42)));
    assert_eq!(v.token, token());
}

#[test]
fn update_metadata_sets_one_entry() {
    let mut v = vault_with(1, 1);
    match v.update_metadata("name".to_string(), "Gold Coin".to_string()) {
        ResourceCall::SetMetadata { key, value } => {
            assert_eq!(key, "name");
            assert_eq!(value, "Gold Coin");
        }
        other => panic!("unexpected call {:?}", other),
    }
    assert_eq!(v.get_vault_data(), (1, dec(1), dec(1)));
}

#[test]
fn stage_three_locks_minting_and_metadata() {
    let v = vault_with(1, 1);
    let calls = v.set_token_stage_three();
    assert_eq!(calls.len(), 5);
    match &calls[0] {
        ResourceCall::SetMetadata { key, value } => {
            assert_eq!(key, "stage");
            assert_eq!(value, "Lock mint, withdraw, and update_metadata rules");
        }
        other => panic!("unexpected call {:?}", other),
    }
    assert!(matches!(calls[1], ResourceCall::DenyMinting));
    assert!(matches!(calls[2], ResourceCall::LockMinting));
    assert!(matches!(calls[3], ResourceCall::DenyMetadataUpdates));
    assert!(matches!(calls[4], ResourceCall::LockMetadataUpdates));
}

#[test]
fn token_metadata_of_a_fungible() {
    let lookups = vec![
        MetadataLookup::Found("USD Tether".to_string()),
        MetadataLookup::Absent,
        MetadataLookup::Unconvertible,
    ];
    let (div, id, supply, values) = StableCoinVault::get_token_metadata(
        ResourceKind::Fungible { divisibility: 18 },
        Some(dec(1000000)),
        lookups,
    );
    assert_eq!(div, 18);
    assert_eq!(id, IdType::Integer);
    assert_eq!(supply, dec(1000000));
    assert_eq!(values, strings(&["USD Tether", "err", "MetadataConversioniError"]));
}

#[test]
fn token_metadata_of_a_non_fungible() {
    let (div, id, supply, values) = StableCoinVault::get_token_metadata(
        ResourceKind::NonFungible { id_type: IdType::Ruid },
        None,
        Vec::new(),
    );
    assert_eq!(div, 255);
    assert_eq!(id, IdType::Ruid);
    assert_eq!(supply, Decimal::zero());
    assert!(values.is_empty());
}

#[test]
fn error_messages() {
    assert_eq!(VaultError::InvalidAmount.message(), "invalid amount");
    assert_eq!(VaultError::InsufficientFunds.message(), "not enough amount in the vault");
    assert_eq!(VaultError::InvalidToken.message(), "input token invalid");
    assert_eq!(VaultError::MismatchingResource.message(), "mismatching resource");
    assert_eq!(VaultError::InvalidVersion.message(), "invalid version");
    assert_eq!(VaultError::Overflow.message(), "Overflow");
}

#[test]
fn vault_stays_between_nothing_and_the_supply() {
    let setup = StableCoinVault::new(dec(50), strings(&["k"; 6]), strings(&["v"; 6]), XRD);
    let mut v = setup.into_vault(token());
    let within = |v: &StableCoinVault| {
        let (version, in_vault, supply) = v.get_vault_data();
        version == 1
            && from_model(in_vault) >= sdec(0)
            && from_model(in_vault) <= from_model(supply)
    };
    assert!(within(&v));
    v.withdraw_to_bucket(dec(50));
    assert!(within(&v));
    v.mint_to_bucket(dec(20));
    assert!(within(&v));
    v.deposit_to_vault(TokenBucket { resource: token(), amount: dec(30) });
    assert!(within(&v));
    v.burn_in_bucket(TokenBucket { resource: token(), amount: dec(40) });
    assert!(within(&v));
    assert_eq!(v.get_vault_data(), (1, dec(30), dec(30)));
    assert_eq!(v.check_withdraw_to_bucket(dec(31)), Err(VaultError::InsufficientFunds));
}
