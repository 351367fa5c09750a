use metlev_engine::instructions::supply::Supply;
use metlev_engine::instructions::withdraw::Withdraw;
use metlev_engine::state::lending_vault::LendingVault;
use metlev_engine::state::lp_position::LpPosition;
use metlev_engine::{Address, ProtocolError};

const NOW: i64 = 1_700_000_000;
const YEAR: i64 = 31_536_000;

fn addr(b: u8) -> Address {
    Address { bytes: [b; 32] }
}

fn funded_vault(supplied: u64) -> LendingVault {
    let mut vault = LendingVault::new(addr(1), 350, NOW);
    vault.supply(supplied).unwrap();
    vault
}

#[test]
fn borrow_within_liquidity() {
    let mut vault = funded_vault(1_000);
    assert_eq!(vault.available_liquidity(), 1_000);
    assert!(vault.can_borrow(1_000));
    assert_eq!(vault.borrow(600), Ok(()));
    assert_eq!(vault.total_borrowed(), 600);
    assert_eq!(vault.available_liquidity(), 400);
    assert_eq!(vault.borrow(400), Ok(()));
    assert_eq!(vault.available_liquidity(), 0);
}

#[test]
fn borrow_beyond_liquidity_fails_and_keeps_ledger() {
    let mut vault = funded_vault(1_000);
    vault.borrow(300).unwrap();
    assert!(!vault.can_borrow(701));
    assert_eq!(vault.borrow(701), Err(ProtocolError::InsufficientLiquidity));
    assert_eq!(vault.total_borrowed(), 300);
    assert_eq!(vault.total_supplied(), 1_000);
}

#[test]
fn repay_underflow_is_reported() {
    let mut vault = funded_vault(1_000);
    vault.borrow(300).unwrap();
    assert_eq!(vault.repay(301), Err(ProtocolError::MathUnderflow));
    assert_eq!(vault.total_borrowed(), 300);
    assert_eq!(vault.repay(300), Ok(()));
    assert_eq!(vault.total_borrowed(), 0);
}

#[test]
fn vault_supply_overflow_and_withdraw_limits() {
    let mut vault = funded_vault(u64::MAX - 5);
    assert_eq!(vault.supply(6), Err(ProtocolError::MathOverflow));
    assert_eq!(vault.total_supplied(), u64::MAX - 5);
    let mut small = funded_vault(1_000);
    small.borrow(800).unwrap();
    assert_eq!(small.withdraw(1_001), Err(ProtocolError::MathUnderflow));
    assert_eq!(small.withdraw(201), Err(ProtocolError::InsufficientLiquidity));
    assert_eq!(small.withdraw(200), Ok(()));
    assert_eq!(small.total_supplied(), 800);
    assert!(small.total_borrowed() <= small.total_supplied());
}

#[test]
fn new_vault_is_empty() {
    let vault = LendingVault::new(addr(4), 30, NOW);
    assert_eq!(vault.authority(), addr(4));
    assert_eq!(vault.total_supplied(), 0);
    assert_eq!(vault.total_borrowed(), 0);
    assert_eq!(vault.interest_rate_bps(), 30);
    assert_eq!(vault.last_update(), NOW);
}

#[test]
fn one_year_of_interest() {
    let mut lp = LpPosition { lp: addr(2), supplied_amount: 1_000_000_000, interest_earned: 0, last_update: NOW };
    lp.accrue_interest(350, NOW + YEAR);
    assert_eq!(lp.interest_earned, 35_000_000);
    assert_eq!(lp.last_update, NOW + YEAR);
    assert_eq!(lp.claimable(), 1_035_000_000);
}

#[test]
fn accrual_twice_at_the_same_time_changes_nothing() {
    let mut lp = LpPosition { lp: addr(2), supplied_amount: 5_000_000, interest_earned: 17, last_update: NOW };
    lp.accrue_interest(500, NOW + 86_400);
    let once = lp;
    lp.accrue_interest(500, NOW + 86_400);
    assert_eq!(lp.interest_earned, once.interest_earned);
    assert_eq!(lp.last_update, once.last_update);
    assert_eq!(lp.supplied_amount, once.supplied_amount);
}

#[test]
fn accrual_backwards_in_time_earns_nothing() {
    let mut lp = LpPosition { lp: addr(2), supplied_amount: 5_000_000, interest_earned: 9, last_update: NOW };
    lp.accrue_interest(500, NOW - 1_000);
    assert_eq!(lp.interest_earned, 9);
    assert_eq!(lp.last_update, NOW - 1_000);
}

#[test]
fn accrual_saturates() {
    let mut lp = LpPosition { lp: addr(2), supplied_amount: u64::MAX, interest_earned: 1, last_update: i64::MIN };
    lp.accrue_interest(u16::MAX, i64::MAX);
    assert_eq!(lp.interest_earned, u64::MAX);
    assert_eq!(lp.claimable(), u64::MAX);
}

#[test]
fn supply_then_withdraw_immediately_returns_amount() {
    let mut supply = Supply { signer: addr(3), lending_vault: funded_vault(0), lp_position: LpPosition::empty(), now: NOW };
    assert_eq!(supply.supply(250_000), Ok(()));
    assert_eq!(supply.lp_position.lp, addr(3));
    assert_eq!(supply.lp_position.supplied_amount, 250_000);
    assert_eq!(supply.lp_position.last_update, NOW);
    assert_eq!(supply.lending_vault.total_supplied(), 250_000);
    let mut withdraw = Withdraw {
        signer: addr(3),
        lp_position: supply.lp_position,
        lending_vault: supply.lending_vault,
        vault_balance: 250_000,
        now: NOW,
    };
    assert_eq!(withdraw.withdraw(), Ok(250_000));
    assert_eq!(withdraw.lending_vault.total_supplied(), 0);
    assert!(withdraw.lp_position.lp.is_zero());
}

#[test]
fn second_supply_accrues_first() {
    let mut supply = Supply { signer: addr(3), lending_vault: funded_vault(0), lp_position: LpPosition::empty(), now: NOW };
    supply.supply(1_000_000_000).unwrap();
    supply.now = NOW + YEAR;
    supply.supply(1_000).unwrap();
    assert_eq!(supply.lp_position.interest_earned, 35_000_000);
    assert_eq!(supply.lp_position.supplied_amount, 1_000_001_000);
    assert_eq!(supply.lp_position.last_update, NOW + YEAR);
    assert_eq!(supply.lending_vault.total_supplied(), 1_000_001_000);
}

#[test]
fn supply_errors_change_nothing() {
    let mut foreign = Supply {
        signer: addr(3),
        lending_vault: funded_vault(0),
        lp_position: LpPosition { lp: addr(9), supplied_amount: 1, interest_earned: 0, last_update: NOW },
        now: NOW,
    };
    assert_eq!(foreign.supply(10), Err(ProtocolError::InvalidOwner));
    assert_eq!(foreign.lp_position.supplied_amount, 1);
    let mut full = Supply { signer: addr(3), lending_vault: funded_vault(u64::MAX), lp_position: LpPosition::empty(), now: NOW };
    assert_eq!(full.supply(1), Err(ProtocolError::MathOverflow));
    assert!(full.lp_position.lp.is_zero());
    assert_eq!(full.lending_vault.total_supplied(), u64::MAX);
}

#[test]
fn withdraw_pays_interest_but_takes_principal_off_the_ledger() {
    let lp = LpPosition { lp: addr(3), supplied_amount: 1_000_000_000, interest_earned: 0, last_update: NOW };
    let mut withdraw = Withdraw {
        signer: addr(3),
        lp_position: lp,
        lending_vault: funded_vault(1_500_000_000),
        vault_balance: 2_000_000_000,
        now: NOW + YEAR,
    };
    assert_eq!(withdraw.withdraw(), Ok(1_035_000_000));
    assert_eq!(withdraw.lending_vault.total_supplied(), 500_000_000);
}

#[test]
fn withdraw_errors_change_nothing() {
    let lp = LpPosition { lp: addr(3), supplied_amount: 1_000, interest_earned: 0, last_update: NOW };
    let mut foreign = Withdraw { signer: addr(4), lp_position: lp, lending_vault: funded_vault(1_000), vault_balance: 1_000, now: NOW };
    assert_eq!(foreign.withdraw(), Err(ProtocolError::InvalidOwner));
    let mut short = Withdraw { signer: addr(3), lp_position: lp, lending_vault: funded_vault(1_000), vault_balance: 999, now: NOW };
    assert_eq!(short.withdraw(), Err(ProtocolError::InsufficientLiquidity));
    assert_eq!(short.lp_position.supplied_amount, 1_000);
    let mut ledger_short = Withdraw { signer: addr(3), lp_position: lp, lending_vault: funded_vault(999), vault_balance: 5_000, now: NOW };
    assert_eq!(ledger_short.withdraw(), Err(ProtocolError::MathUnderflow));
    let mut lent = funded_vault(1_000);
    lent.borrow(1).unwrap();
    let mut lent_out = Withdraw { signer: addr(3), lp_position: lp, lending_vault: lent, vault_balance: 5_000, now: NOW };
    assert_eq!(lent_out.withdraw(), Err(ProtocolError::InsufficientLiquidity));
    assert_eq!(lent_out.lending_vault.total_supplied(), 1_000);
    assert_eq!(lent_out.lp_position.supplied_amount, 1_000);
}
