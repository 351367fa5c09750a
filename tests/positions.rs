use metlev_engine::amm::BinLiquidityDistributionByWeight;
use metlev_engine::instructions::close_position::{next_unwind_step, ClosePosition, UnwindEvent, UnwindStep};
use metlev_engine::instructions::deposit_collateral::{CollateralTransfer, DepositCollateral};
use metlev_engine::instructions::deposit_sol_collateral::DepositSolCollateral;
use metlev_engine::instructions::deposit_token_collateral::DepositTokenCollateral;
use metlev_engine::instructions::liquidate::{LiquidationPayout, Liquidate};
use metlev_engine::instructions::open_position::OpenPosition;
use metlev_engine::instructions::withdraw_collateral::WithdrawCollateral;
use metlev_engine::state::config::{CollateralConfig, Config};
use metlev_engine::state::lending_vault::LendingVault;
use metlev_engine::state::position::{Position, PositionStatus};
use metlev_engine::{Address, ProtocolError};

const NOW: i64 = 1_700_000_000;
const SOL: u64 = 1_000_000_000;
const PRICE: u64 = 100_000_000;

fn addr(b: u8) -> Address {
    Address { bytes: [b; 32] }
}

fn feed_bytes(price: u64, timestamp: i64) -> Vec<u8> {
    let mut data = vec![208u8, 74, 71, 99, 160, 22, 158, 240];
    data.extend_from_slice(&[1u8; 32]);
    data.extend_from_slice(&price.to_le_bytes());
    data.push(6);
    data.extend_from_slice(&timestamp.to_le_bytes());
    data.push(255);
    data
}

fn sol_config(max_ltv: u16, threshold: u16) -> CollateralConfig {
    CollateralConfig::new(Address::native_mint(), addr(20), max_ltv, threshold, 500, 1_000, 350, 60, 9).unwrap()
}

fn vault_with(supplied: u64) -> LendingVault {
    let mut vault = LendingVault::new(addr(1), 350, NOW);
    vault.supply(supplied).unwrap();
    vault
}

fn open_ctx(collateral: u64, max_ltv: u16, threshold: u16, supplied: u64) -> OpenPosition {
    OpenPosition {
        user: addr(5),
        config: Config::new(addr(1)),
        position: Position::new(addr(5), Address::native_mint(), collateral, NOW - 100),
        lending_vault: vault_with(supplied),
        collateral_config: sol_config(max_ltv, threshold),
        price_oracle: addr(20),
        oracle_data: feed_bytes(PRICE, NOW - 5),
        met_position: addr(30),
        now: NOW,
    }
}

fn dist() -> Vec<BinLiquidityDistributionByWeight> {
    vec![BinLiquidityDistributionByWeight { bin_id: 11, weight: 3 }, BinLiquidityDistributionByWeight { bin_id: 12, weight: 1 }]
}

#[test]
fn open_borrows_and_records_debt() {
    let mut ctx = open_ctx(SOL, 7_500, 8_000, 10 * SOL);
    let plan = ctx.open(20_000, 8, 10, 10, 3, dist()).unwrap();
    assert_eq!(plan.liquidity.amount, 2 * SOL);
    assert_eq!(plan.lower_bin_id, 8);
    assert_eq!(plan.width, 10);
    assert_eq!(plan.liquidity.active_id, 10);
    assert_eq!(plan.liquidity.max_active_bin_slippage, 3);
    assert_eq!(plan.liquidity.bin_liquidity_dist, dist());
    assert_eq!(ctx.lending_vault.total_borrowed(), 2 * SOL);
    assert_eq!(ctx.position.debt_amount(), 2 * SOL);
    assert_eq!(ctx.position.meteora_position(), addr(30));
    assert_eq!(ctx.position.status(), PositionStatus::Active);
}

#[test]
fn open_above_max_ltv_rolls_back_the_borrow() {
    let mut ctx = open_ctx(SOL, 7_500, 8_000, 10 * SOL);
    // 4x: debt worth 400 against a position worth 500 is 80%
    assert_eq!(ctx.open(40_000, 8, 10, 10, 3, dist()).unwrap_err(), ProtocolError::ExceedsMaxLTV);
    assert_eq!(ctx.lending_vault.total_borrowed(), 0);
    assert_eq!(ctx.position.debt_amount(), 0);
}

#[test]
fn open_failures() {
    let mut short = open_ctx(SOL, 7_500, 8_000, SOL);
    assert_eq!(short.open(20_000, 0, 1, 0, 0, dist()).unwrap_err(), ProtocolError::InsufficientLiquidity);
    assert_eq!(short.lending_vault.total_borrowed(), 0);

    let mut tiny = open_ctx(1, 7_500, 8_000, SOL);
    assert_eq!(tiny.open(5_000, 0, 1, 0, 0, dist()).unwrap_err(), ProtocolError::InvalidAmount);

    let mut huge = open_ctx(u64::MAX, 7_500, 8_000, SOL);
    assert_eq!(huge.open(20_000, 0, 1, 0, 0, dist()).unwrap_err(), ProtocolError::MathOverflow);

    let mut paused = open_ctx(SOL, 7_500, 8_000, 10 * SOL);
    paused.config.paused = true;
    assert_eq!(paused.open(20_000, 0, 1, 0, 0, dist()).unwrap_err(), ProtocolError::ProtocolPaused);

    let mut stranger = open_ctx(SOL, 7_500, 8_000, 10 * SOL);
    stranger.user = addr(6);
    assert_eq!(stranger.open(20_000, 0, 1, 0, 0, dist()).unwrap_err(), ProtocolError::InvalidOwner);

    let mut wrong_feed = open_ctx(SOL, 7_500, 8_000, 10 * SOL);
    wrong_feed.price_oracle = addr(21);
    assert_eq!(wrong_feed.open(20_000, 0, 1, 0, 0, dist()).unwrap_err(), ProtocolError::OraclePriceUnavailable);

    let mut stale = open_ctx(SOL, 7_500, 8_000, 10 * SOL);
    stale.oracle_data = feed_bytes(PRICE, NOW - 61);
    assert_eq!(stale.open(20_000, 0, 1, 0, 0, dist()).unwrap_err(), ProtocolError::OracleStale);
    assert_eq!(stale.lending_vault.total_borrowed(), 0);

    let mut disabled = open_ctx(SOL, 7_500, 8_000, 10 * SOL);
    disabled.collateral_config.set_enabled(false);
    assert_eq!(disabled.open(20_000, 0, 1, 0, 0, dist()).unwrap_err(), ProtocolError::InvalidCollateralType);
}

#[test]
fn open_on_closed_position_fails() {
    let mut ctx = open_ctx(SOL, 7_500, 8_000, 10 * SOL);
    ctx.position.mark_closed().unwrap();
    assert_eq!(ctx.open(20_000, 0, 1, 0, 0, dist()).unwrap_err(), ProtocolError::PositionNotActive);
}

#[test]
fn unwind_sequence() {
    assert_eq!(
        next_unwind_step(-5, 5, UnwindEvent::Started),
        UnwindStep::RemoveLiquidity { from_bin_id: -5, to_bin_id: 5, bps: 10_000 }
    );
    assert_eq!(next_unwind_step(-5, 5, UnwindEvent::LiquidityRemoved), UnwindStep::ClaimFee);
    assert_eq!(
        next_unwind_step(-5, 5, UnwindEvent::FeesClaimed { other_asset_balance: 42 }),
        UnwindStep::Swap { amount_in: 42, min_amount_out: 0 }
    );
    assert_eq!(
        next_unwind_step(-5, 5, UnwindEvent::FeesClaimed { other_asset_balance: 0 }),
        UnwindStep::ClosePosition
    );
    assert_eq!(next_unwind_step(-5, 5, UnwindEvent::Swapped), UnwindStep::ClosePosition);
    assert_eq!(next_unwind_step(-5, 5, UnwindEvent::PositionClosed), UnwindStep::Settle);
}

fn opened(leverage: u64, max_ltv: u16, threshold: u16) -> OpenPosition {
    let mut ctx = open_ctx(SOL, max_ltv, threshold, 10 * SOL);
    ctx.open(leverage, 0, 1, 0, 0, dist()).unwrap();
    ctx
}

#[test]
fn close_repays_and_ends_the_position() {
    let opened = opened(20_000, 7_500, 8_000);
    let mut close = ClosePosition {
        user: addr(5),
        config: opened.config,
        position: opened.position,
        lending_vault: opened.lending_vault,
    };
    assert_eq!(close.close(), Ok(2 * SOL));
    assert_eq!(close.lending_vault.total_borrowed(), 0);
    assert_eq!(close.position.debt_amount(), 0);
    assert_eq!(close.position.status(), PositionStatus::Closed);
    assert!(close.position.is_closed());
    assert_eq!(close.close(), Err(ProtocolError::PositionNotActive));
}

#[test]
fn close_failures_change_nothing() {
    let opened = opened(20_000, 7_500, 8_000);
    let mut stranger = ClosePosition { user: addr(6), config: opened.config, position: opened.position, lending_vault: opened.lending_vault };
    assert_eq!(stranger.close(), Err(ProtocolError::InvalidOwner));
    let mut paused = ClosePosition { user: addr(5), config: Config { authority: addr(1), paused: true }, position: opened.position, lending_vault: opened.lending_vault };
    assert_eq!(paused.close(), Err(ProtocolError::ProtocolPaused));
    // a pool that has lost track of the loan surfaces bad debt
    let mut desync = ClosePosition { user: addr(5), config: opened.config, position: opened.position, lending_vault: vault_with(10 * SOL) };
    assert_eq!(desync.close(), Err(ProtocolError::MathUnderflow));
    assert_eq!(desync.position.debt_amount(), 2 * SOL);
    assert!(desync.position.is_active());
}

fn liquidation(opened: &OpenPosition, config: CollateralConfig) -> Liquidate {
    Liquidate {
        liquidator: addr(9),
        config: opened.config,
        position: opened.position,
        lending_vault: opened.lending_vault,
        collateral_config: config,
        price_oracle: addr(20),
        oracle_data: feed_bytes(PRICE, NOW - 5),
        now: NOW,
    }
}

#[test]
fn healthy_position_cannot_be_liquidated() {
    let opened = opened(20_000, 7_500, 8_000);
    let mut liq = liquidation(&opened, opened.collateral_config);
    assert_eq!(liq.liquidate(3 * SOL), Err(ProtocolError::PositionHealthy));
    assert!(liq.position.is_active());
    assert_eq!(liq.lending_vault.total_borrowed(), 2 * SOL);
}

#[test]
fn unhealthy_position_is_liquidated() {
    // opened at 80% under generous limits, which are then tightened
    let opened = opened(40_000, 8_500, 9_000);
    let mut tightened = opened.collateral_config;
    tightened.set_ltv_params(Some(7_000), Some(7_500)).unwrap();
    let mut liq = liquidation(&opened, tightened);
    let payout = liq.liquidate(4_500_000_000).unwrap();
    assert_eq!(payout, LiquidationPayout { repaid: 4 * SOL, penalty: 225_000_000, remainder: 275_000_000 });
    assert_eq!(liq.lending_vault.total_borrowed(), 0);
    assert_eq!(liq.position.status(), PositionStatus::Liquidated);
    assert_eq!(liq.position.debt_amount(), 0);
    assert_eq!(liq.liquidate(1), Err(ProtocolError::PositionNotActive));
}

#[test]
fn liquidation_with_short_proceeds_leaves_nothing_to_the_owner() {
    let opened = opened(40_000, 8_500, 9_000);
    let mut tightened = opened.collateral_config;
    tightened.set_ltv_params(Some(7_000), Some(7_500)).unwrap();
    let mut liq = liquidation(&opened, tightened);
    let payout = liq.liquidate(3 * SOL).unwrap();
    assert_eq!(payout, LiquidationPayout { repaid: 4 * SOL, penalty: 150_000_000, remainder: 0 });
}

#[test]
fn liquidation_failures() {
    let opened = opened(40_000, 8_500, 9_000);
    let mut tightened = opened.collateral_config;
    tightened.set_ltv_params(Some(7_000), Some(7_500)).unwrap();
    let mut stale = liquidation(&opened, tightened);
    stale.oracle_data = feed_bytes(PRICE, NOW - 3_600);
    assert_eq!(stale.liquidate(SOL), Err(ProtocolError::OracleStale));
    let mut zero = liquidation(&opened, tightened);
    zero.oracle_data = feed_bytes(0, NOW);
    assert_eq!(zero.liquidate(SOL), Err(ProtocolError::OraclePriceUnavailable));
    let mut wrong_feed = liquidation(&opened, tightened);
    wrong_feed.price_oracle = addr(77);
    assert_eq!(wrong_feed.liquidate(SOL), Err(ProtocolError::OraclePriceUnavailable));
    let other_asset = CollateralConfig::new(addr(50), addr(20), 7_000, 7_500, 500, 0, 0, 60, 9).unwrap();
    let mut mismatch = liquidation(&opened, other_asset);
    assert_eq!(mismatch.liquidate(SOL), Err(ProtocolError::InvalidCollateralType));
    let mut overflow = liquidation(&opened, tightened);
    assert_eq!(overflow.liquidate(u64::MAX), Err(ProtocolError::MathOverflow));
    assert!(overflow.position.is_active());
    assert_eq!(overflow.lending_vault.total_borrowed(), 4 * SOL);
}

#[test]
fn deposit_opens_a_position() {
    let ctx = DepositCollateral {
        user: addr(5),
        config: Config::new(addr(1)),
        mint: Address::native_mint(),
        collateral_config: sol_config(7_500, 8_000),
        now: NOW,
    };
    let deposit = ctx.deposit(SOL).unwrap();
    assert_eq!(deposit.transfer, CollateralTransfer::Native { amount: SOL });
    assert_eq!(deposit.position.owner(), addr(5));
    assert_eq!(deposit.position.collateral_mint(), Address::native_mint());
    assert_eq!(deposit.position.collateral_amount(), SOL);
    assert_eq!(deposit.position.debt_amount(), 0);
    assert_eq!(deposit.position.created_at(), NOW);
    assert_eq!(deposit.position.status(), PositionStatus::Active);
    assert!(deposit.position.meteora_position().is_zero());
}

#[test]
fn token_deposit_uses_a_checked_transfer() {
    let usdc = CollateralConfig::new(addr(60), addr(61), 8_000, 8_500, 500, 10, 0, 60, 6).unwrap();
    let ctx = DepositCollateral { user: addr(5), config: Config::new(addr(1)), mint: addr(60), collateral_config: usdc, now: NOW };
    assert_eq!(ctx.deposit(10).unwrap().transfer, CollateralTransfer::Token { amount: 10, decimals: 6 });
    let token_ctx = DepositTokenCollateral { user: addr(5), config: Config::new(addr(1)), mint: addr(60), collateral_config: usdc, now: NOW };
    assert_eq!(token_ctx.deposit(10).unwrap().transfer, CollateralTransfer::Token { amount: 10, decimals: 6 });
    let sol_ctx = DepositSolCollateral { user: addr(5), config: Config::new(addr(1)), mint: addr(60), collateral_config: usdc, now: NOW };
    assert_eq!(sol_ctx.deposit(10).unwrap_err(), ProtocolError::InvalidCollateralType);
}

#[test]
fn deposit_failures() {
    let base = DepositCollateral {
        user: addr(5),
        config: Config::new(addr(1)),
        mint: Address::native_mint(),
        collateral_config: sol_config(7_500, 8_000),
        now: NOW,
    };
    assert_eq!(base.deposit(999).unwrap_err(), ProtocolError::InsufficientCollateral);
    let paused = DepositCollateral { config: Config { authority: addr(1), paused: true }, ..base };
    assert_eq!(paused.deposit(SOL).unwrap_err(), ProtocolError::ProtocolPaused);
    let other_mint = DepositCollateral { mint: addr(44), ..base };
    assert_eq!(other_mint.deposit(SOL).unwrap_err(), ProtocolError::InvalidCollateralType);
    let mut disabled_config = sol_config(7_500, 8_000);
    disabled_config.set_enabled(false);
    let disabled = DepositCollateral { collateral_config: disabled_config, ..base };
    assert_eq!(disabled.deposit(SOL).unwrap_err(), ProtocolError::InvalidCollateralType);
    let sol_only = DepositSolCollateral { user: addr(5), config: Config::new(addr(1)), mint: Address::native_mint(), collateral_config: sol_config(7_500, 8_000), now: NOW };
    assert_eq!(sol_only.deposit(SOL).unwrap().transfer, CollateralTransfer::Native { amount: SOL });
    let token_only = DepositTokenCollateral { user: addr(5), config: Config::new(addr(1)), mint: Address::native_mint(), collateral_config: sol_config(7_500, 8_000), now: NOW };
    assert_eq!(token_only.deposit(SOL).unwrap_err(), ProtocolError::InvalidCollateralType);
}

#[test]
fn collateral_comes_back_after_the_position_ends() {
    let opened = opened(20_000, 7_500, 8_000);
    let mut active = WithdrawCollateral { user: addr(5), position: opened.position, collateral_vault_balance: SOL };
    assert_eq!(active.withdraw(), Err(ProtocolError::PositionStillActive));
    let mut close = ClosePosition { user: addr(5), config: opened.config, position: opened.position, lending_vault: opened.lending_vault };
    close.close().unwrap();
    let mut stranger = WithdrawCollateral { user: addr(6), position: close.position, collateral_vault_balance: SOL };
    assert_eq!(stranger.withdraw(), Err(ProtocolError::InvalidOwner));
    let mut short = WithdrawCollateral { user: addr(5), position: close.position, collateral_vault_balance: SOL - 1 };
    assert_eq!(short.withdraw(), Err(ProtocolError::WithdrawalFailed));
    assert_eq!(short.position.collateral_amount(), SOL);
    let mut ok = WithdrawCollateral { user: addr(5), position: close.position, collateral_vault_balance: SOL };
    assert_eq!(ok.withdraw(), Ok(SOL));
    assert_eq!(ok.position.collateral_amount(), 0);
    assert_eq!(ok.withdraw(), Ok(0));
}

#[test]
fn terminal_states_are_final() {
    let mut position = Position::new(addr(5), addr(6), 10, NOW);
    position.record_debt(7, addr(8)).unwrap();
    assert_eq!(position.debt_amount(), 7);
    position.mark_liquidated().unwrap();
    assert_eq!(position.debt_amount(), 0);
    assert_eq!(position.mark_closed(), Err(ProtocolError::PositionNotActive));
    assert_eq!(position.mark_liquidated(), Err(ProtocolError::PositionNotActive));
    assert_eq!(position.record_debt(1, addr(8)), Err(ProtocolError::PositionNotActive));
    assert_eq!(position.status(), PositionStatus::Liquidated);
    assert_eq!(position.debt_amount(), 0);
    assert!(!position.is_active());
}
