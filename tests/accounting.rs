use arbitrage::accounting::{
    effective_threshold, interest, net_profit, repayment_due, settle, FlashLoan, LoanTerms,
    SettlementResult,
};
use arbitrage::error::ArbitrageError;
use arbitrage::pair::TradingPair;

fn pair(threshold: u64) -> TradingPair {
    TradingPair::new([1u8; 32], [2u8; 32], threshold).unwrap()
}

fn loan(principal: u64, fee_bps: u64) -> FlashLoan {
    FlashLoan { principal, terms: LoanTerms { fee_bps } }
}

#[test]
fn interest_is_basis_points_of_principal() {
    assert_eq!(interest(1_000_000, 10), 1_000);
    assert_eq!(interest(1_000_000, 0), 0);
    assert_eq!(interest(999, 10), 0);
    assert_eq!(interest(12_345, 25), 30);
}

#[test]
fn interest_saturates() {
    assert_eq!(interest(u64::MAX, 20_000), u64::MAX);
    assert_eq!(interest(u64::MAX, 10_000), u64::MAX);
}

#[test]
fn repayment_due_adds_interest() {
    assert_eq!(repayment_due(&loan(1_000_000, 10)), 1_001_000);
    assert_eq!(repayment_due(&loan(1_000_000, 0)), 1_000_000);
    assert_eq!(repayment_due(&loan(u64::MAX, 1)), u64::MAX);
}

#[test]
fn net_profit_clamps_at_zero() {
    assert_eq!(net_profit(1_015_000, 1_001_000), 14_000);
    assert_eq!(net_profit(970_200, 1_001_000), 0);
    assert_eq!(net_profit(0, u64::MAX), 0);
    assert_eq!(net_profit(u64::MAX, 0), u64::MAX);
    assert_eq!(net_profit(5, 5), 0);
}

#[test]
fn effective_threshold_is_the_larger() {
    assert_eq!(effective_threshold(5, 7), 7);
    assert_eq!(effective_threshold(9, 7), 9);
    assert_eq!(effective_threshold(0, 0), 0);
}

#[test]
fn settle_reports_profit() {
    assert_eq!(
        settle(&loan(1_000_000, 10), 1_015_000, &pair(1_000), 0),
        Ok(SettlementResult { profit: 14_000, amount_executed: 1_000_000 })
    );
    assert_eq!(
        settle(&loan(1_000_000, 10), 1_015_000, &pair(0), 14_000),
        Ok(SettlementResult { profit: 14_000, amount_executed: 1_000_000 })
    );
}

#[test]
fn settle_rejects_below_either_threshold() {
    assert_eq!(settle(&loan(1_000_000, 10), 1_015_000, &pair(14_001), 0), Err(ArbitrageError::NoProfit));
    assert_eq!(settle(&loan(1_000_000, 10), 1_015_000, &pair(0), 14_001), Err(ArbitrageError::NoProfit));
}

#[test]
fn settle_example_with_interest_is_rejected() {
    let l = loan(1_000_000, 10);
    assert_eq!(interest(1_000_000, 10), 1_000);
    assert_eq!(repayment_due(&l), 1_001_000);
    assert_eq!(net_profit(970_200, 1_001_000), 0);
    assert_eq!(settle(&l, 970_200, &pair(1), 0), Err(ArbitrageError::NoProfit));
    assert_eq!(settle(&l, 970_200, &pair(0), 1), Err(ArbitrageError::NoProfit));
    assert_eq!(settle(&l, 970_200, &pair(1_000_000), 1_000_000), Err(ArbitrageError::NoProfit));
}

#[test]
fn settle_example_without_interest_makes_no_profit() {
    let l = loan(1_000_000, 0);
    assert_eq!(repayment_due(&l), 1_000_000);
    assert_eq!(net_profit(970_200, 1_000_000), 0);
    assert_eq!(settle(&l, 970_200, &pair(0), 1), Err(ArbitrageError::NoProfit));
}

#[test]
fn settle_zero_amount() {
    assert_eq!(
        settle(&loan(0, 10), 0, &pair(0), 0),
        Ok(SettlementResult { profit: 0, amount_executed: 0 })
    );
    assert_eq!(settle(&loan(0, 10), 0, &pair(1), 0), Err(ArbitrageError::NoProfit));
    assert_eq!(settle(&loan(0, 10), 0, &pair(0), 1), Err(ArbitrageError::NoProfit));
}
