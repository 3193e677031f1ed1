use vstd::prelude::*;

verus! {

/// Why a run ended without settling.
#[derive(Clone, Copy, Debug, PartialEq, Eq, Structural)]
pub enum ArbitrageError {
    /// The round trip's profit is below the effective minimum.
    NoProfit,
    /// A venue could not quote or fill the requested amount.
    InsufficientLiquidity,
    /// A leg's realized output fell further below its quote than allowed.
    SlippageExceeded,
    /// The loan provider refused the loan.
    LoanUnavailable,
    /// Repaying the loan failed.
    RepaymentFailed,
    /// Paying the profit out failed.
    DisbursementFailed,
}

} // verus!
