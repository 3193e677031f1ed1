use vstd::prelude::*;

use crate::accounting::{
    repayment_due, repayment_due_spec, sat_sub, settle, settle_spec, FlashLoan,
    LoanTerms, SettlementResult, BPS_DENOMINATOR,
};
use crate::error::ArbitrageError;
use crate::pair::TradingPair;
use crate::route::{select_route, select_route_spec, Direction, RouteDecision, Venue};

verus! {

/// The record a successful run emits.
#[derive(Clone, Copy, Debug, PartialEq, Eq, Structural)]
pub struct ArbitrageExecuted {
    pub profit: u64,
    pub amount: u64,
}

/// Everything a run is given up front.
#[derive(Clone, Copy, Debug)]
pub struct RunConfig {
    /// The principal to borrow, in the settlement asset's smallest unit.
    pub amount: u64,
    /// The caller's minimum profit.
    pub min_profit: u64,
    pub pair: TradingPair,
    pub terms: LoanTerms,
    /// How far, in basis points, a leg's realized output may fall below its
    /// quote.
    pub slippage_bps: u64,
}

/// The quoted outputs of one round trip: after the first leg, and at the end.
#[derive(Clone, Copy, Debug, PartialEq, Eq, Structural)]
pub struct Quotes {
    pub leg1: u64,
    pub round_trip: u64,
}

/// Where a run stands. Each non-terminal phase waits for the reply to the
/// action that led into it.
#[derive(Clone, Copy, Debug)]
pub enum Phase {
    Idle,
    AwaitingLoan,
    /// Waiting for venue A's quote on the principal.
    QuotingAFirst,
    /// Waiting for venue B's quote on venue A's output.
    QuotingAThenB { leg1: u64 },
    /// Waiting for venue B's quote on the principal.
    QuotingBFirst { via_a: Quotes },
    /// Waiting for venue A's quote on venue B's output.
    QuotingBThenA { via_a: Quotes, leg1: u64 },
    SwappingFirst { route: RouteDecision, quoted: Quotes },
    SwappingSecond { route: RouteDecision, quoted: Quotes, received: u64 },
    Repaying { settlement: SettlementResult },
    Disbursing { settlement: SettlementResult },
    Completed { settlement: SettlementResult },
    Aborted { error: ArbitrageError },
}

/// What the host is asked to do next.
#[derive(Clone, Copy, Debug, PartialEq, Eq, Structural)]
pub enum Action {
    Borrow { amount: u64 },
    Quote { venue: Venue, amount_in: u64, direction: Direction },
    Swap { venue: Venue, amount_in: u64, direction: Direction },
    Repay { total: u64 },
    Transfer { amount: u64 },
    /// The run succeeded: emit the record.
    Finish { record: ArbitrageExecuted },
    /// The run failed: the host discards every effect of the run (the loan,
    /// both swaps) and reports the error.
    Abort { error: ArbitrageError },
}

/// The loan a run takes.
pub open spec fn loan_of(cfg: RunConfig) -> FlashLoan {
    FlashLoan { principal: cfg.amount, terms: cfg.terms }
}

/// The least acceptable output for a quote of `quoted` at a tolerance of
/// `slippage_bps`.
pub open spec fn min_acceptable_spec(quoted: u64, slippage_bps: u64) -> int {
    sat_sub(quoted as int, quoted as int * slippage_bps as int / BPS_DENOMINATOR as int)
}

/// Ending the run on `error`.
pub open spec fn abort_with(error: ArbitrageError) -> (Phase, Action) {
    (Phase::Aborted { error }, Action::Abort { error })
}

/// The record emitted for a settled run.
pub open spec fn record_of(s: SettlementResult) -> ArbitrageExecuted {
    ArbitrageExecuted { profit: s.profit, amount: s.amount_executed }
}

/// The run's transition: from `phase`, given the reply to the last action
/// (`Some` with the amount out on success, `None` on failure), the next phase
/// and the next action. Any failure aborts; a terminal phase repeats itself.
pub open spec fn next_spec(cfg: RunConfig, phase: Phase, reply: Option<u64>) -> (Phase, Action) {
    match phase {
        Phase::Idle => (Phase::AwaitingLoan, Action::Borrow { amount: cfg.amount }),
        Phase::AwaitingLoan => match reply {
            None => abort_with(ArbitrageError::LoanUnavailable),
            Some(_) => (
                Phase::QuotingAFirst,
                Action::Quote { venue: Venue::A, amount_in: cfg.amount, direction: Direction::AToB },
            ),
        },
        Phase::QuotingAFirst => match reply {
            None => abort_with(ArbitrageError::InsufficientLiquidity),
            Some(q) => (
                Phase::QuotingAThenB { leg1: q },
                Action::Quote { venue: Venue::B, amount_in: q, direction: Direction::BToA },
            ),
        },
        Phase::QuotingAThenB { leg1 } => match reply {
            None => abort_with(ArbitrageError::InsufficientLiquidity),
            Some(q) => (
                Phase::QuotingBFirst { via_a: Quotes { leg1, round_trip: q } },
                Action::Quote { venue: Venue::B, amount_in: cfg.amount, direction: Direction::AToB },
            ),
        },
        Phase::QuotingBFirst { via_a } => match reply {
            None => abort_with(ArbitrageError::InsufficientLiquidity),
            Some(q) => (
                Phase::QuotingBThenA { via_a, leg1: q },
                Action::Quote { venue: Venue::A, amount_in: q, direction: Direction::BToA },
            ),
        },
        Phase::QuotingBThenA { via_a, leg1 } => match reply {
            None => abort_with(ArbitrageError::InsufficientLiquidity),
            Some(q) => {
                let via_b = Quotes { leg1, round_trip: q };
                let route = select_route_spec(via_a.round_trip, via_b.round_trip);
                let quoted = if route.first == Venue::A {
                    via_a
                } else {
                    via_b
                };
                (
                    Phase::SwappingFirst { route, quoted },
                    Action::Swap {
                        venue: route.first,
                        amount_in: cfg.amount,
                        direction: Direction::AToB,
                    },
                )
            },
        },
        Phase::SwappingFirst { route, quoted } => match reply {
            None => abort_with(ArbitrageError::InsufficientLiquidity),
            Some(out) => if out < min_acceptable_spec(quoted.leg1, cfg.slippage_bps) {
                abort_with(ArbitrageError::SlippageExceeded)
            } else {
                (
                    Phase::SwappingSecond { route, quoted, received: out },
                    Action::Swap { venue: route.second, amount_in: out, direction: Direction::BToA },
                )
            },
        },
        Phase::SwappingSecond { route, quoted, received } => match reply {
            None => abort_with(ArbitrageError::InsufficientLiquidity),
            Some(out) => if out < min_acceptable_spec(quoted.round_trip, cfg.slippage_bps) {
                abort_with(ArbitrageError::SlippageExceeded)
            } else {
                match settle_spec(loan_of(cfg), out, cfg.pair.min_profit_threshold, cfg.min_profit) {
                    Err(error) => abort_with(error),
                    Ok(settlement) => (
                        Phase::Repaying { settlement },
                        Action::Repay { total: repayment_due_spec(loan_of(cfg)) as u64 },
                    ),
                }
            },
        },
        Phase::Repaying { settlement } => match reply {
            None => abort_with(ArbitrageError::RepaymentFailed),
            Some(_) => (Phase::Disbursing { settlement }, Action::Transfer { amount: settlement.profit }),
        },
        Phase::Disbursing { settlement } => match reply {
            None => abort_with(ArbitrageError::DisbursementFailed),
            Some(_) => (Phase::Completed { settlement }, Action::Finish { record: record_of(settlement) }),
        },
        Phase::Completed { settlement } => (
            Phase::Completed { settlement },
            Action::Finish { record: record_of(settlement) },
        ),
        Phase::Aborted { error } => abort_with(error),
    }
}

/// The least acceptable output for a quote of `quoted`, allowing
/// `slippage_bps` basis points of shortfall.
pub fn min_acceptable(quoted: u64, slippage_bps: u64) -> (r: u64)
    ensures
        r == min_acceptable_spec(quoted, slippage_bps),
{
    proof {
        assert(quoted as int * slippage_bps as int <= u64::MAX as int * u64::MAX as int)
            by (nonlinear_arith)
            requires
                quoted <= u64::MAX,
                slippage_bps <= u64::MAX,
        ;
    }
    let shortfall: u128 = quoted as u128 * slippage_bps as u128 / (BPS_DENOMINATOR as u128);
    if shortfall >= quoted as u128 {
        0
    } else {
        quoted - shortfall as u64
    }
}

/// One run of the engine, driven by its host one reply at a time.
pub struct ArbitrageRun {
    pub config: RunConfig,
    pub phase: Phase,
}

impl ArbitrageRun {
    /// A run that has not started.
    pub fn new(config: RunConfig) -> (r: ArbitrageRun)
        ensures
            r.config == config,
            r.phase == Phase::Idle,
    {
        ArbitrageRun { config, phase: Phase::Idle }
    }

    /// Advances the run on the reply to its last action and returns the next
    /// action. In `Idle` the reply is ignored and the loan is asked for.
    pub fn step(&mut self, reply: Option<u64>) -> (r: Action)
        ensures
            final(self).config == old(self).config,
            (final(self).phase, r) == next_spec(old(self).config, old(self).phase, reply),
    {
        let cfg = self.config;
        let (phase, action) = match self.phase {
            Phase::Idle => (Phase::AwaitingLoan, Action::Borrow { amount: cfg.amount }),
            Phase::AwaitingLoan => match reply {
                None => Self::abort_with(ArbitrageError::LoanUnavailable),
                Some(_) => (
                    Phase::QuotingAFirst,
                    Action::Quote { venue: Venue::A, amount_in: cfg.amount, direction: Direction::AToB },
                ),
            },
            Phase::QuotingAFirst => match reply {
                None => Self::abort_with(ArbitrageError::InsufficientLiquidity),
                Some(q) => (
                    Phase::QuotingAThenB { leg1: q },
                    Action::Quote { venue: Venue::B, amount_in: q, direction: Direction::BToA },
                ),
            },
            Phase::QuotingAThenB { leg1 } => match reply {
                None => Self::abort_with(ArbitrageError::InsufficientLiquidity),
                Some(q) => (
                    Phase::QuotingBFirst { via_a: Quotes { leg1, round_trip: q } },
                    Action::Quote { venue: Venue::B, amount_in: cfg.amount, direction: Direction::AToB },
                ),
            },
            Phase::QuotingBFirst { via_a } => match reply {
                None => Self::abort_with(ArbitrageError::InsufficientLiquidity),
                Some(q) => (
                    Phase::QuotingBThenA { via_a, leg1: q },
                    Action::Quote { venue: Venue::A, amount_in: q, direction: Direction::BToA },
                ),
            },
            Phase::QuotingBThenA { via_a, leg1 } => match reply {
                None => Self::abort_with(ArbitrageError::InsufficientLiquidity),
                Some(q) => {
                    let via_b = Quotes { leg1, round_trip: q };
                    let route = select_route(via_a.round_trip, via_b.round_trip);
                    let quoted = match route.first {
                        Venue::A => via_a,
                        Venue::B => via_b,
                    };
                    (
                        Phase::SwappingFirst { route, quoted },
                        Action::Swap {
                            venue: route.first,
                            amount_in: cfg.amount,
                            direction: Direction::AToB,
                        },
                    )
                },
            },
            Phase::SwappingFirst { route, quoted } => match reply {
                None => Self::abort_with(ArbitrageError::InsufficientLiquidity),
                Some(out) => if out < min_acceptable(quoted.leg1, cfg.slippage_bps) {
                    Self::abort_with(ArbitrageError::SlippageExceeded)
                } else {
                    (
                        Phase::SwappingSecond { route, quoted, received: out },
                        Action::Swap { venue: route.second, amount_in: out, direction: Direction::BToA },
                    )
                },
            },
            Phase::SwappingSecond { route, quoted, received } => match reply {
                None => Self::abort_with(ArbitrageError::InsufficientLiquidity),
                Some(out) => if out < min_acceptable(quoted.round_trip, cfg.slippage_bps) {
                    Self::abort_with(ArbitrageError::SlippageExceeded)
                } else {
                    let loan = FlashLoan { principal: cfg.amount, terms: cfg.terms };
                    match settle(&loan, out, &cfg.pair, cfg.min_profit) {
                        Err(error) => Self::abort_with(error),
                        Ok(settlement) => (
                            Phase::Repaying { settlement },
                            Action::Repay { total: repayment_due(&loan) },
                        ),
                    }
                },
            },
            Phase::Repaying { settlement } => match reply {
                None => Self::abort_with(ArbitrageError::RepaymentFailed),
                Some(_) => (Phase::Disbursing { settlement }, Action::Transfer { amount: settlement.profit }),
            },
            Phase::Disbursing { settlement } => match reply {
                None => Self::abort_with(ArbitrageError::DisbursementFailed),
                Some(_) => (
                    Phase::Completed { settlement },
                    Action::Finish { record: Self::record(settlement) },
                ),
            },
            Phase::Completed { settlement } => (
                Phase::Completed { settlement },
                Action::Finish { record: Self::record(settlement) },
            ),
            Phase::Aborted { error } => Self::abort_with(error),
        };
        self.phase = phase;
        action
    }

    fn abort_with(error: ArbitrageError) -> (r: (Phase, Action))
        ensures
            r == abort_with(error),
    {
        (Phase::Aborted { error }, Action::Abort { error })
    }

    fn record(settlement: SettlementResult) -> (r: ArbitrageExecuted)
        ensures
            r == record_of(settlement),
    {
        ArbitrageExecuted { profit: settlement.profit, amount: settlement.amount_executed }
    }
}

/// Feeds `replies` to a run in `phase`, one per step: the final phase and
/// the actions taken, in order.
pub open spec fn replay(cfg: RunConfig, phase: Phase, replies: Seq<Option<u64>>) -> (Phase, Seq<
    Action,
>)
    decreases replies.len(),
{
    if replies.len() == 0 {
        (phase, Seq::empty())
    } else {
        let (p, a) = next_spec(cfg, phase, replies[0]);
        let (fin, rest) = replay(cfg, p, replies.drop_first());
        (fin, seq![a] + rest)
    }
}

/// Neither a repayment nor a transfer.
pub open spec fn moves_no_funds(a: Action) -> bool {
    !(a is Repay) && !(a is Transfer)
}

/// The profit the second leg's output `out` gives is below the run's
/// effective minimum.
pub open spec fn below_threshold(cfg: RunConfig, out: u64) -> bool {
    sat_sub(out as int, repayment_due_spec(loan_of(cfg))) < crate::accounting::effective_threshold_spec(
        cfg.min_profit,
        cfg.pair.min_profit_threshold,
    )
}

/// An aborted run stays aborted and only ever asks for the abort again.
pub proof fn lemma_aborted_is_final(cfg: RunConfig, error: ArbitrageError, replies: Seq<Option<u64>>)
    ensures
        replay(cfg, Phase::Aborted { error }, replies).0 == (Phase::Aborted { error }),
        replay(cfg, Phase::Aborted { error }, replies).1.len() == replies.len(),
        forall|i: int|
            0 <= i < replies.len() ==> #[trigger] replay(cfg, Phase::Aborted { error }, replies).1[i]
                == (Action::Abort { error }),
    decreases replies.len(),
{
    if replies.len() > 0 {
        lemma_aborted_is_final(cfg, error, replies.drop_first());
        let rest = replay(cfg, Phase::Aborted { error }, replies.drop_first()).1;
        assert forall|i: int| 0 <= i < replies.len() implies #[trigger] replay(
            cfg,
            Phase::Aborted { error },
            replies,
        ).1[i] == (Action::Abort { error }) by {
            if i > 0 {
                assert(replay(cfg, Phase::Aborted { error }, replies).1[i] == rest[i - 1]);
            }
        }
    }
}

/// Once the second leg returns an amount whose profit is below the effective
/// minimum, the run ends aborted and neither repays nor transfers anything,
/// whatever replies follow.
pub proof fn lemma_unprofitable_run_moves_no_funds(
    cfg: RunConfig,
    route: RouteDecision,
    quoted: Quotes,
    received: u64,
    out: u64,
    later: Seq<Option<u64>>,
)
    requires
        below_threshold(cfg, out),
    ensures
        ({
            let run = replay(
                cfg,
                Phase::SwappingSecond { route, quoted, received },
                seq![Some(out)] + later,
            );
            &&& run.0 is Aborted
            &&& forall|i: int| 0 <= i < run.1.len() ==> moves_no_funds(#[trigger] run.1[i])
        }),
{
    let replies = seq![Some(out)] + later;
    let start = Phase::SwappingSecond { route, quoted, received };
    assert(replies[0] == Some(out));
    assert(replies.drop_first() =~= later);
    let (p, a) = next_spec(cfg, start, Some(out));
    assert(p is Aborted && a is Abort);
    let error = p->Aborted_error;
    lemma_aborted_is_final(cfg, error, later);
    let run = replay(cfg, start, replies);
    let rest = replay(cfg, p, later).1;
    assert forall|i: int| 0 <= i < run.1.len() implies moves_no_funds(#[trigger] run.1[i]) by {
        if i > 0 {
            assert(run.1[i] == rest[i - 1]);
        }
    }
}

/// What a phase holds once the run has settled: a profit at or above the
/// effective minimum on the configured principal.
pub open spec fn settled_ok(cfg: RunConfig, phase: Phase) -> bool {
    let ok = |s: SettlementResult|
        s.profit >= crate::accounting::effective_threshold_spec(
            cfg.min_profit,
            cfg.pair.min_profit_threshold,
        ) && s.amount_executed == cfg.amount;
    match phase {
        Phase::Repaying { settlement } => ok(settlement),
        Phase::Disbursing { settlement } => ok(settlement),
        Phase::Completed { settlement } => ok(settlement),
        _ => true,
    }
}

/// A repayment is the full amount due, and a transfer pays out a profit at or
/// above the effective minimum.
pub open spec fn payout_sound(cfg: RunConfig, a: Action) -> bool {
    &&& a matches Action::Repay { total } ==> total == repayment_due_spec(loan_of(cfg))
    &&& a matches Action::Transfer { amount } ==> amount >= crate::accounting::effective_threshold_spec(
        cfg.min_profit,
        cfg.pair.min_profit_threshold,
    )
}

proof fn lemma_step_sound(cfg: RunConfig, phase: Phase, reply: Option<u64>)
    requires
        settled_ok(cfg, phase),
    ensures
        settled_ok(cfg, next_spec(cfg, phase, reply).0),
        payout_sound(cfg, next_spec(cfg, phase, reply).1),
{
}

/// From any phase that holds no settlement below the minimum (in particular
/// from `Idle`), every repayment a run asks for is the full amount due, and
/// every transfer pays out a profit at or above the effective minimum.
pub proof fn lemma_payouts_meet_threshold(cfg: RunConfig, phase: Phase, replies: Seq<Option<u64>>)
    requires
        settled_ok(cfg, phase),
    ensures
        settled_ok(cfg, replay(cfg, phase, replies).0),
        replay(cfg, phase, replies).1.len() == replies.len(),
        forall|i: int|
            0 <= i < replies.len() ==> payout_sound(cfg, #[trigger] replay(cfg, phase, replies).1[i]),
    decreases replies.len(),
{
    if replies.len() > 0 {
        lemma_step_sound(cfg, phase, replies[0]);
        let (p, a) = next_spec(cfg, phase, replies[0]);
        lemma_payouts_meet_threshold(cfg, p, replies.drop_first());
        let rest = replay(cfg, p, replies.drop_first()).1;
        assert forall|i: int| 0 <= i < replies.len() implies payout_sound(
            cfg,
            #[trigger] replay(cfg, phase, replies).1[i],
        ) by {
            if i > 0 {
                assert(replay(cfg, phase, replies).1[i] == rest[i - 1]);
            }
        }
    }
}

/// Once both round trips are quoted, the run swaps first on the venue whose
/// round trip is quoted higher (venue A on a tie), and never on the worse one.
pub proof fn lemma_run_takes_better_route(cfg: RunConfig, via_a: Quotes, leg1: u64, q: u64)
    ensures
        ({
            let (p, a) = next_spec(cfg, Phase::QuotingBThenA { via_a, leg1 }, Some(q));
            &&& p matches Phase::SwappingFirst { route, quoted } && quoted.round_trip >= via_a.round_trip
                && quoted.round_trip >= q && (route.first == Venue::B <==> q > via_a.round_trip)
            &&& a == (Action::Swap {
                venue: if q > via_a.round_trip { Venue::B } else { Venue::A },
                amount_in: cfg.amount,
                direction: Direction::AToB,
            })
        }),
{
}

/// A run is a function of its inputs: the same configuration fed the same
/// replies ends in the same phase after the same actions.
pub proof fn lemma_run_deterministic(
    c1: RunConfig,
    c2: RunConfig,
    r1: Seq<Option<u64>>,
    r2: Seq<Option<u64>>,
)
    requires
        c1 == c2,
        r1 == r2,
    ensures
        replay(c1, Phase::Idle, r1) == replay(c2, Phase::Idle, r2),
{
}

} // verus!

