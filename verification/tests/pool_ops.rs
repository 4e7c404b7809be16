use lst::error::StakingError;
use lst::state::{GlobalState, Identifier};

fn id(n: u64) -> Identifier {
    Identifier { w0: n, w1: 0, w2: 0, w3: 0 }
}

fn pool(principal: u64, supply: u64, admin: Identifier) -> GlobalState {
    GlobalState {
        total_staked_sol: principal,
        total_lst_supply: supply,
        current_validator_pubkey: id(100),
        admin,
        lst_mint_pubkey: id(200),
        pending_admin: None,
    }
}

#[test]
fn bootstrap_deposit_mints_one_to_one() {
    let mut s = pool(0, 0, id(1));
    assert_eq!(s.deposit(1000), Ok(1000));
    assert_eq!(s.total_staked_sol, 1000);
    assert_eq!(s.total_lst_supply, 1000);
}

#[test]
fn deposit_zero_is_insufficient_funds() {
    let mut s = pool(10_000, 10_000, id(1));
    assert_eq!(s.deposit(0), Err(StakingError::InsufficientFunds));
    assert_eq!(s.total_staked_sol, 10_000);
    assert_eq!(s.total_lst_supply, 10_000);
}

#[test]
fn deposit_and_redeem_at_par_rate() {
    let mut s = pool(10_000, 10_000, id(1));
    assert_eq!(s.deposit(500), Ok(500));
    assert_eq!(s.total_staked_sol, 10_500);
    assert_eq!(s.total_lst_supply, 10_500);
    assert_eq!(s.redeem(500), Ok(500));
    assert_eq!(s.total_staked_sol, 10_000);
    assert_eq!(s.total_lst_supply, 10_000);
}

#[test]
fn round_trip_never_returns_more_than_deposited() {
    // Rate 10/3: the mint rounds down, and so does the redemption.
    let mut s = pool(10, 3, id(1));
    let minted = s.deposit(4).unwrap();
    assert_eq!(minted, 1); // floor(4 * 3 / 10)
    assert_eq!(s.total_staked_sol, 14);
    assert_eq!(s.total_lst_supply, 4);
    let back = s.redeem(minted).unwrap();
    assert_eq!(back, 3); // floor(1 * 14 / 4)
    assert!(back <= 4);
}

#[test]
fn redeem_zero_is_insufficient_funds() {
    let mut s = pool(10_000, 10_000, id(1));
    assert_eq!(s.redeem(0), Err(StakingError::InsufficientFunds));
}

#[test]
fn redeem_above_supply_is_insufficient_funds() {
    let mut s = pool(10_000, 10_000, id(1));
    assert_eq!(s.redeem(10_001), Err(StakingError::InsufficientFunds));
    assert_eq!(s.total_staked_sol, 10_000);
    assert_eq!(s.total_lst_supply, 10_000);
}

#[test]
fn compound_raises_rate_and_full_redeem_drains_pool() {
    let mut s = pool(10_000, 10_000, id(1));
    assert_eq!(s.compound(id(1), 200), Ok(()));
    assert_eq!(s.total_staked_sol, 10_200);
    assert_eq!(s.total_lst_supply, 10_000);
    // Rate strictly increased: 10_200/10_000 > 10_000/10_000.
    assert!(10_200u128 * 10_000u128 > 10_000u128 * 10_000u128);
    assert_eq!(s.redeem(10_000), Ok(10_200));
    assert_eq!(s.total_staked_sol, 0);
    assert_eq!(s.total_lst_supply, 0);
}

#[test]
fn compound_by_non_admin_is_unauthorized() {
    let mut s = pool(10_000, 10_000, id(1));
    assert_eq!(s.compound(id(2), 200), Err(StakingError::Unauthorized));
    assert_eq!(s.total_staked_sol, 10_000);
}

#[test]
fn invariant_holds_across_operation_sequence() {
    let invariant = |s: &GlobalState| s.total_lst_supply == 0 || s.total_staked_sol > 0;
    let mut s = pool(0, 0, id(1));
    assert!(invariant(&s));
    s.deposit(7).unwrap();
    assert!(invariant(&s));
    s.compound(id(1), 5).unwrap();
    assert!(invariant(&s));
    s.deposit(3).unwrap();
    assert!(invariant(&s));
    let part = s.total_lst_supply - 1;
    s.redeem(part).unwrap();
    assert!(invariant(&s));
    s.redeem(1).unwrap();
    assert!(invariant(&s));
    assert_eq!(s.total_lst_supply, 0);
}

#[test]
fn well_formedness_check_matches_invariant() {
    let good = pool(5, 5, id(1));
    assert!(good.is_well_formed());
    let bootstrap = pool(0, 0, id(1));
    assert!(bootstrap.is_well_formed());
    let bad = pool(0, 5, id(1));
    assert!(!bad.is_well_formed());
}
