use vstd::prelude::*;

use crate::error::ArbitrageError;
use crate::pair::TradingPair;

verus! {

/// One hundred percent, in basis points.
pub const BPS_DENOMINATOR: u64 = 10_000;

/// Subtraction clamped at zero.
pub open spec fn sat_sub(a: int, b: int) -> int {
    if a >= b {
        a - b
    } else {
        0
    }
}

/// `a` clamped to the range of `u64`.
pub open spec fn clamp_u64(a: int) -> int {
    if a > u64::MAX {
        u64::MAX as int
    } else {
        a
    }
}

/// Terms of a flash loan: a fixed fee in basis points of the principal.
#[derive(Clone, Copy, Debug, PartialEq, Eq, Structural)]
pub struct LoanTerms {
    pub fee_bps: u64,
}

/// A loan that lives for one run only.
#[derive(Clone, Copy, Debug, PartialEq, Eq, Structural)]
pub struct FlashLoan {
    pub principal: u64,
    pub terms: LoanTerms,
}

/// The outcome of a run that settled.
#[derive(Clone, Copy, Debug, PartialEq, Eq, Structural)]
pub struct SettlementResult {
    pub profit: u64,
    pub amount_executed: u64,
}

/// Interest owed on `principal`: `principal * fee_bps / 10000`, rounded down
/// and saturated at `u64::MAX`.
pub open spec fn interest_spec(principal: u64, fee_bps: u64) -> int {
    clamp_u64(principal as int * fee_bps as int / BPS_DENOMINATOR as int)
}

/// Principal plus interest, saturated at `u64::MAX`.
pub open spec fn repayment_due_spec(loan: FlashLoan) -> int {
    clamp_u64(loan.principal + interest_spec(loan.principal, loan.terms.fee_bps))
}

/// The larger of the caller's minimum and the pair's own threshold.
pub open spec fn effective_threshold_spec(min_profit: u64, pair_threshold: u64) -> int {
    if min_profit >= pair_threshold {
        min_profit as int
    } else {
        pair_threshold as int
    }
}

/// What settling `received` against `loan` yields.
pub open spec fn settle_spec(
    loan: FlashLoan,
    received: u64,
    pair_threshold: u64,
    min_profit: u64,
) -> Result<SettlementResult, ArbitrageError> {
    let profit = sat_sub(received as int, repayment_due_spec(loan));
    if profit < effective_threshold_spec(min_profit, pair_threshold) {
        Err(ArbitrageError::NoProfit)
    } else {
        Ok(SettlementResult { profit: profit as u64, amount_executed: loan.principal })
    }
}

proof fn lemma_product_fits(a: u64, b: u64)
    ensures
        a as int * b as int <= u128::MAX,
{
    assert(a as int * b as int <= u64::MAX as int * u64::MAX as int) by (nonlinear_arith)
        requires
            a <= u64::MAX,
            b <= u64::MAX,
    ;
}

/// Interest owed on `principal` at `fee_bps` basis points.
pub fn interest(principal: u64, fee_bps: u64) -> (r: u64)
    ensures
        r == interest_spec(principal, fee_bps),
{
    proof {
        lemma_product_fits(principal, fee_bps);
    }
    let product: u128 = principal as u128 * fee_bps as u128;
    let fee: u128 = product / (BPS_DENOMINATOR as u128);
    if fee > u64::MAX as u128 {
        u64::MAX
    } else {
        fee as u64
    }
}

/// The total that must be repaid on `loan`.
pub fn repayment_due(loan: &FlashLoan) -> (r: u64)
    ensures
        r == repayment_due_spec(*loan),
{
    loan.principal.saturating_add(interest(loan.principal, loan.terms.fee_bps))
}

/// Net profit: what came back less what is owed, never below zero.
pub fn net_profit(received: u64, due: u64) -> (r: u64)
    ensures
        r == sat_sub(received as int, due as int),
        r <= received,
{
    received.saturating_sub(due)
}

/// The minimum profit a run must reach.
pub fn effective_threshold(min_profit: u64, pair_threshold: u64) -> (r: u64)
    ensures
        r == effective_threshold_spec(min_profit, pair_threshold),
        r >= min_profit,
        r >= pair_threshold,
{
    if min_profit >= pair_threshold {
        min_profit
    } else {
        pair_threshold
    }
}

/// Settles the amount received from the second leg against the loan: the
/// profit after repayment, or `NoProfit` when it is below the larger of
/// `min_profit` and the pair's threshold.
pub fn settle(loan: &FlashLoan, received: u64, pair: &TradingPair, min_profit: u64) -> (r: Result<
    SettlementResult,
    ArbitrageError,
>)
    ensures
        r == settle_spec(*loan, received, pair.min_profit_threshold, min_profit),
        r is Err <==> sat_sub(received as int, repayment_due_spec(*loan))
            < effective_threshold_spec(min_profit, pair.min_profit_threshold),
{
    let due = repayment_due(loan);
    let profit = net_profit(received, due);
    if profit < effective_threshold(min_profit, pair.min_profit_threshold) {
        Err(ArbitrageError::NoProfit)
    } else {
        Ok(SettlementResult { profit, amount_executed: loan.principal })
    }
}

/// Profit is never negative and never more than what was received: a loss
/// settles as zero profit rather than wrapping to a large amount.
pub proof fn lemma_profit_clamped(received: u64, due: u64)
    ensures
        sat_sub(received as int, due as int) >= 0,
        sat_sub(received as int, due as int) <= received,
        received >= due ==> sat_sub(received as int, due as int) == received - due,
        received <= due ==> sat_sub(received as int, due as int) == 0,
{
}

/// A run of amount zero gets zero back from both legs, so its profit is zero:
/// it settles only when the effective threshold is zero too.
pub proof fn lemma_zero_amount_settles_only_at_zero_threshold(
    terms: LoanTerms,
    pair_threshold: u64,
    min_profit: u64,
)
    ensures
        ({
            let loan = FlashLoan { principal: 0, terms };
            &&& repayment_due_spec(loan) == 0
            &&& settle_spec(loan, 0, pair_threshold, min_profit) is Err
                <==> effective_threshold_spec(min_profit, pair_threshold) > 0
            &&& settle_spec(loan, 0, pair_threshold, min_profit) is Ok ==> settle_spec(
                loan,
                0,
                pair_threshold,
                min_profit,
            ) == Ok::<SettlementResult, ArbitrageError>(
                SettlementResult { profit: 0, amount_executed: 0 },
            )
        }),
{
    assert(0int * terms.fee_bps as int == 0);
}

} // verus!
