use burn_boost_token::boost::{
    boost_multiplier, boost_percentage, burned_percentage, current_market_cap, CalcError,
};
use burn_boost_token::registry::BurnRegistry;
use burn_boost_token::token::{
    burn_tokens, calculate_boost_from_burn, get_boost_percentage, get_burned_percentage,
    get_current_market_cap, get_token_stats, initialize, update_market_cap_boost, ErrorCode,
    LedgerError, Pubkey, TokenData, UserData,
};

const AUTH: Pubkey = Pubkey(1, 0, 0, 0);
const MINT: Pubkey = Pubkey(7, 0, 0, 0);
const OTHER: Pubkey = Pubkey(7, 0, 0, 1);
const ALICE: Pubkey = Pubkey(100, 5, 5, 5);
const BOB: Pubkey = Pubkey(100, 5, 5, 6);

fn registry_with(initial_supply: u64, base_market_cap: u64) -> BurnRegistry {
    let mut reg = BurnRegistry::new();
    let r = reg.initialize(
        AUTH,
        MINT,
        String::from("Boost"),
        String::from("BST"),
        9,
        initial_supply,
        base_market_cap,
    );
    assert_eq!(r, Ok(()));
    reg
}

fn record(initial_supply: u64, base_market_cap: u64) -> TokenData {
    initialize(
        AUTH,
        MINT,
        String::from("Boost"),
        String::from("BST"),
        9,
        initial_supply,
        base_market_cap,
    )
    .unwrap()
}

fn holder(user: Pubkey) -> UserData {
    UserData { user, mint: MINT, burned_amount: 0 }
}

fn assert_invariants(reg: &BurnRegistry) {
    let t = reg.token_data(MINT).unwrap();
    assert_eq!(t.current_supply + t.total_burned, t.initial_supply);
    assert!(t.total_burned <= t.initial_supply);
    let pct = (t.total_burned as u128 * 10000 / t.initial_supply as u128) as u64;
    assert_eq!(t.current_boost_multiplier, 10000 + std::cmp::min(pct * 10 / 100, 5000));
}

#[test]
fn scenario_a_ten_percent_burn() {
    let mut reg = registry_with(1_000_000, 1_000_000);
    let ev = reg.burn(ALICE, MINT, 100_000, Ok(())).unwrap();
    assert_eq!(ev.burned.user, ALICE);
    assert_eq!(ev.burned.amount, 100_000);
    assert_eq!(ev.burned.new_market_cap_multiplier, 10100);
    let boosted = ev.boosted.unwrap();
    assert_eq!(boosted.old_multiplier, 10000);
    assert_eq!(boosted.new_multiplier, 10100);
    assert_eq!(boosted.percentage_burned, 1000);
    let s = reg.get_stats(MINT).unwrap();
    assert_eq!(s.initial_supply, 1_000_000);
    assert_eq!(s.current_supply, 900_000);
    assert_eq!(s.total_burned, 100_000);
    assert_eq!(s.burned_percentage, 1000);
    assert_eq!(s.current_market_cap, 1_010_000);
    assert_eq!(s.boost_percentage, 100);
    assert_eq!(s.burn_transaction_count, 1);
    assert_eq!(reg.burned_amount(ALICE, MINT), 100_000);
    assert_invariants(&reg);
}

#[test]
fn scenario_b_half_supply_burned() {
    let mut reg = registry_with(1_000_000, 1_000_000);
    for _ in 0..5 {
        reg.burn(ALICE, MINT, 100_000, Ok(())).unwrap();
    }
    let t = reg.token_data(MINT).unwrap();
    assert_eq!(t.total_burned, 500_000);
    // A tenth of the 5000 bp burned share.
    assert_eq!(t.current_boost_multiplier, 10500);
    reg.burn(BOB, MINT, 500_000, Ok(())).unwrap();
    let t = reg.token_data(MINT).unwrap();
    assert_eq!(t.current_supply, 0);
    assert_eq!(t.current_boost_multiplier, 11000);
    assert!(t.current_boost_multiplier <= 15000);
    assert_invariants(&reg);
}

#[test]
fn multiplier_cap_reached_by_projection() {
    let reg = registry_with(1_000_000, 1_000_000);
    assert_eq!(reg.preview_boost(MINT, 5_000_000), Ok((5000, 15000)));
    assert_eq!(reg.preview_boost(MINT, 9_000_000), Ok((5000, 15000)));
    assert_eq!(reg.preview_boost(MINT, 4_990_000), Ok((4990, 14990)));
}

#[test]
fn scenario_c_zero_burn_rejected() {
    let mut reg = registry_with(1_000_000, 1_000_000);
    assert_eq!(reg.burn(ALICE, MINT, 0, Ok(())).unwrap_err(), ErrorCode::InvalidBurnAmount);
    let s = reg.get_stats(MINT).unwrap();
    assert_eq!(s.total_burned, 0);
    assert_eq!(s.current_supply, 1_000_000);
    assert_eq!(s.burn_transaction_count, 0);
    assert_eq!(reg.burned_amount(ALICE, MINT), 0);
}

#[test]
fn scenario_d_burn_above_supply_rejected() {
    let mut reg = registry_with(1_000_000, 1_000_000);
    reg.burn(ALICE, MINT, 400_000, Ok(())).unwrap();
    assert_eq!(reg.burn(BOB, MINT, 600_001, Ok(())).unwrap_err(), ErrorCode::InsufficientSupply);
    assert_eq!(reg.burn(ALICE, MINT, 600_001, Ok(())).unwrap_err(), ErrorCode::InsufficientSupply);
    let t = reg.token_data(MINT).unwrap();
    assert_eq!(t.total_burned, 400_000);
    assert_eq!(t.current_supply, 600_000);
    assert_eq!(t.burn_transaction_count, 1);
    assert_eq!(reg.burned_amount(ALICE, MINT), 400_000);
    assert_eq!(reg.burned_amount(BOB, MINT), 0);
}

#[test]
fn scenario_e_preview_changes_nothing() {
    let reg = registry_with(1_000_000, 1_000_000);
    assert_eq!(reg.preview_boost(MINT, 50_000), Ok((50, 10050)));
    let s = reg.get_stats(MINT).unwrap();
    assert_eq!(s.total_burned, 0);
    assert_eq!(s.current_supply, 1_000_000);
    assert_eq!(s.boost_percentage, 0);
}

#[test]
fn repeated_burn_is_not_idempotent() {
    let mut reg = registry_with(1_000_000, 1_000_000);
    reg.burn(ALICE, MINT, 1_000, Ok(())).unwrap();
    let first = reg.token_data(MINT).unwrap().total_burned;
    reg.burn(ALICE, MINT, 1_000, Ok(())).unwrap();
    let second = reg.token_data(MINT).unwrap().total_burned;
    assert_eq!(first, 1_000);
    assert_eq!(second, 2_000);
    assert_eq!(reg.burned_amount(ALICE, MINT), 2_000);
    assert_eq!(reg.token_data(MINT).unwrap().burn_transaction_count, 2);
}

#[test]
fn counters_never_decrease() {
    let mut reg = registry_with(1_000, 1_000);
    let mut last_total = 0;
    let mut last_count = 0;
    let mut last_alice = 0;
    let amounts = [10, 0, 5, 2_000, 1, 984, 1];
    for (i, a) in amounts.iter().enumerate() {
        let who = if i % 2 == 0 { ALICE } else { BOB };
        let _ = reg.burn(who, MINT, *a, Ok(()));
        let t = reg.token_data(MINT).unwrap();
        assert!(t.total_burned >= last_total);
        assert!(t.burn_transaction_count >= last_count);
        assert!(reg.burned_amount(ALICE, MINT) >= last_alice);
        last_total = t.total_burned;
        last_count = t.burn_transaction_count;
        last_alice = reg.burned_amount(ALICE, MINT);
        assert_invariants(&reg);
    }
    assert_eq!(last_total, 1_000);
    assert_eq!(reg.burned_amount(ALICE, MINT) + reg.burned_amount(BOB, MINT), 1_000);
}

#[test]
fn holder_records_add_up_to_total() {
    let mut reg = registry_with(1_000_000, 1_000_000);
    reg.burn(ALICE, MINT, 1_000, Ok(())).unwrap();
    reg.burn(BOB, MINT, 2_500, Ok(())).unwrap();
    reg.burn(ALICE, MINT, 300, Ok(())).unwrap();
    assert_eq!(reg.burned_amount(ALICE, MINT), 1_300);
    assert_eq!(reg.burned_amount(BOB, MINT), 2_500);
    assert_eq!(reg.token_data(MINT).unwrap().total_burned, 3_800);
}

#[test]
fn burns_on_two_tokens_stay_apart() {
    let mut reg = registry_with(1_000_000, 1_000_000);
    assert_eq!(
        reg.initialize(AUTH, OTHER, String::from("Other"), String::from("OTH"), 6, 500, 10),
        Ok(())
    );
    reg.burn(ALICE, OTHER, 50, Ok(())).unwrap();
    assert_eq!(reg.token_data(MINT).unwrap().total_burned, 0);
    assert_eq!(reg.token_data(OTHER).unwrap().total_burned, 50);
    assert_eq!(reg.token_data(OTHER).unwrap().current_boost_multiplier, 10100);
    assert_eq!(reg.burned_amount(ALICE, MINT), 0);
    assert_eq!(reg.burned_amount(ALICE, OTHER), 50);
}

#[test]
fn initialize_sets_fresh_record() {
    let reg = registry_with(1_000_000, 2_000_000);
    let t = reg.token_data(MINT).unwrap();
    assert_eq!(t.authority, AUTH);
    assert_eq!(t.mint, MINT);
    assert_eq!(t.name, "Boost");
    assert_eq!(t.symbol, "BST");
    assert_eq!(t.decimals, 9);
    assert_eq!(t.initial_supply, 1_000_000);
    assert_eq!(t.current_supply, 1_000_000);
    assert_eq!(t.total_burned, 0);
    assert_eq!(t.base_market_cap, 2_000_000);
    assert_eq!(t.current_boost_multiplier, 10000);
    assert_eq!(t.burn_transaction_count, 0);
}

#[test]
fn initialize_twice_fails() {
    let mut reg = registry_with(1_000_000, 1_000_000);
    let r = reg.initialize(AUTH, MINT, String::from("X"), String::from("X"), 9, 5, 5);
    assert_eq!(r, Err(ErrorCode::AlreadyInitialized));
    assert_eq!(reg.token_data(MINT).unwrap().initial_supply, 1_000_000);
}

#[test]
fn initialize_rejects_long_fields() {
    let name33 = "n".repeat(33);
    let symbol17 = "s".repeat(17);
    let r = initialize(AUTH, MINT, name33.clone(), String::from("S"), 9, 10, 10);
    assert_eq!(r.unwrap_err(), ErrorCode::FieldTooLong);
    let r = initialize(AUTH, MINT, String::from("N"), symbol17, 9, 10, 10);
    assert_eq!(r.unwrap_err(), ErrorCode::FieldTooLong);
    let r = initialize(AUTH, MINT, "n".repeat(32), "s".repeat(16), 9, 10, 10);
    assert!(r.is_ok());
    // Lengths count characters, not bytes.
    let r = initialize(AUTH, MINT, "é".repeat(32), String::from("S"), 9, 10, 10);
    assert!(r.is_ok());
    let mut reg = BurnRegistry::new();
    assert_eq!(
        reg.initialize(AUTH, MINT, name33, String::from("S"), 9, 10, 10),
        Err(ErrorCode::FieldTooLong)
    );
    assert!(reg.token_data(MINT).is_none());
}

#[test]
fn initialize_rejects_zero_supply() {
    let r = initialize(AUTH, MINT, String::from("N"), String::from("S"), 9, 0, 10);
    assert_eq!(r.unwrap_err(), ErrorCode::InvalidSupply);
}

#[test]
fn unknown_token_not_found() {
    let mut reg = BurnRegistry::new();
    assert_eq!(reg.burn(ALICE, MINT, 5, Ok(())).unwrap_err(), ErrorCode::NotFound);
    assert_eq!(reg.get_stats(MINT).unwrap_err(), ErrorCode::NotFound);
    assert_eq!(reg.preview_boost(MINT, 5), Err(ErrorCode::NotFound));
    assert!(reg.token_data(MINT).is_none());
}

#[test]
fn ledger_refusal_aborts_burn() {
    let mut reg = registry_with(1_000_000, 1_000_000);
    let e = reg.burn(ALICE, MINT, 10, Err(LedgerError::InsufficientBalance)).unwrap_err();
    assert_eq!(e, ErrorCode::ExternalBurnFailed(LedgerError::InsufficientBalance));
    let e = reg.burn(ALICE, MINT, 10, Err(LedgerError::Unauthorized)).unwrap_err();
    assert_eq!(e, ErrorCode::ExternalBurnFailed(LedgerError::Unauthorized));
    let t = reg.token_data(MINT).unwrap();
    assert_eq!(t.total_burned, 0);
    assert_eq!(t.burn_transaction_count, 0);
    assert_eq!(reg.burned_amount(ALICE, MINT), 0);
}

#[test]
fn validation_errors_come_before_ledger_refusal() {
    let mut reg = registry_with(100, 100);
    let e = reg.burn(ALICE, MINT, 0, Err(LedgerError::Unauthorized)).unwrap_err();
    assert_eq!(e, ErrorCode::InvalidBurnAmount);
    let e = reg.burn(ALICE, MINT, 101, Err(LedgerError::Unauthorized)).unwrap_err();
    assert_eq!(e, ErrorCode::InsufficientSupply);
}

#[test]
fn burn_overflow_reported() {
    let mut t = record(u64::MAX, 1);
    let mut u = holder(ALICE);
    burn_tokens(&mut t, &mut u, u64::MAX - 1, Ok(())).unwrap();
    let before = t.clone();
    let r = burn_tokens(&mut t, &mut u, 2, Ok(()));
    assert_eq!(r.unwrap_err(), ErrorCode::Overflow);
    assert_eq!(t.total_burned, before.total_burned);
    assert_eq!(t.current_supply, 1);
    let mut full = holder(BOB);
    full.burned_amount = u64::MAX;
    let r = burn_tokens(&mut t, &mut full, 1, Ok(()));
    assert_eq!(r.unwrap_err(), ErrorCode::Overflow);
    assert_eq!(full.burned_amount, u64::MAX);
    assert_eq!(t.current_supply, 1);
}

#[test]
fn burn_without_multiplier_change_emits_no_boost() {
    let mut t = record(1_000_000, 1_000_000);
    let mut u = holder(ALICE);
    let ev = burn_tokens(&mut t, &mut u, 999, Ok(())).unwrap();
    assert_eq!(ev.burned.new_market_cap_multiplier, 10000);
    assert!(ev.boosted.is_none());
    assert_eq!(u.burned_amount, 999);
    assert_eq!(t.current_supply, 999_001);
}

#[test]
fn preview_overflow_and_unclamped_total() {
    let mut t = record(1_000, 1_000);
    let mut u = holder(ALICE);
    burn_tokens(&mut t, &mut u, 10, Ok(())).unwrap();
    assert_eq!(calculate_boost_from_burn(&t, u64::MAX), Err(ErrorCode::Overflow));
    // 2000 of 1000 units: 200% burned, 20% boost.
    assert_eq!(calculate_boost_from_burn(&t, 1_990), Ok(2000));
    assert_eq!(calculate_boost_from_burn(&t, 0), Ok(10));
    assert_eq!(t.total_burned, 10);
}

#[test]
fn burned_percentage_values() {
    assert_eq!(burned_percentage(100_000, 1_000_000), Ok(1000));
    assert_eq!(burned_percentage(1, 3), Ok(3333));
    assert_eq!(burned_percentage(0, 5), Ok(0));
    assert_eq!(burned_percentage(5, 0), Err(CalcError::DivisionByZero));
    assert_eq!(burned_percentage(u64::MAX, 1), Err(CalcError::Overflow));
    assert_eq!(burned_percentage(u64::MAX, u64::MAX), Ok(10000));
}

#[test]
fn boost_multiplier_values() {
    assert_eq!(boost_multiplier(0), 10000);
    assert_eq!(boost_multiplier(1000), 10100);
    assert_eq!(boost_multiplier(109), 10010);
    assert_eq!(boost_multiplier(49_999), 14999);
    assert_eq!(boost_multiplier(50_000), 15000);
    assert_eq!(boost_multiplier(u64::MAX), 15000);
}

#[test]
fn market_cap_values() {
    assert_eq!(current_market_cap(1_000_000, 10100), Ok(1_010_000));
    assert_eq!(current_market_cap(3, 10050), Ok(3));
    assert_eq!(current_market_cap(u64::MAX, 10000), Ok(u64::MAX));
    assert_eq!(current_market_cap(u64::MAX, 10001), Err(CalcError::Overflow));
    assert_eq!(boost_percentage(10100), 100);
    assert_eq!(boost_percentage(10000), 0);
}

#[test]
fn stats_overflow_on_huge_market_cap() {
    let mut reg = registry_with(100, u64::MAX);
    assert_eq!(reg.get_stats(MINT).unwrap().current_market_cap, u64::MAX);
    reg.burn(ALICE, MINT, 10, Ok(())).unwrap();
    assert_eq!(reg.get_stats(MINT).unwrap_err(), ErrorCode::Overflow);
}

#[test]
fn record_helpers() {
    let mut t = record(1_000_000, 1_000_000);
    let mut u = holder(ALICE);
    burn_tokens(&mut t, &mut u, 250_000, Ok(())).unwrap();
    assert_eq!(get_burned_percentage(&t), 2500);
    assert_eq!(get_boost_percentage(&t), 250);
    assert_eq!(get_current_market_cap(&t), Ok(1_025_000));
    let s = get_token_stats(&t).unwrap();
    assert_eq!(s.current_market_cap, 1_025_000);
    assert_eq!(s.burned_percentage, 2500);
    t.current_boost_multiplier = 10000;
    update_market_cap_boost(&mut t);
    assert_eq!(t.current_boost_multiplier, 10250);
}
