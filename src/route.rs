use vstd::prelude::*;

use crate::accounting::{clamp_u64, sat_sub, BPS_DENOMINATOR};
use crate::pair::TradingPair;

verus! {

/// One of the two venues supplied to a run.
#[derive(Clone, Copy, Debug, PartialEq, Eq, Structural)]
pub enum Venue {
    A,
    B,
}

/// The direction of a swap: `AToB` sells the settlement asset, `BToA` buys it
/// back.
#[derive(Clone, Copy, Debug, PartialEq, Eq, Structural)]
pub enum Direction {
    AToB,
    BToA,
}

/// The venue for each leg of a run.
#[derive(Clone, Copy, Debug, PartialEq, Eq, Structural)]
pub struct RouteDecision {
    pub first: Venue,
    pub second: Venue,
}

/// The venue that is not `v`.
pub open spec fn other_spec(v: Venue) -> Venue {
    match v {
        Venue::A => Venue::B,
        Venue::B => Venue::A,
    }
}

/// Starting the round trip on `first`.
pub open spec fn route_from(first: Venue) -> RouteDecision {
    RouteDecision { first, second: other_spec(first) }
}

/// The round-trip output of starting on `first`, where `via_a` is the output
/// of starting on venue A and `via_b` that of starting on venue B.
pub open spec fn round_trip_output(first: Venue, via_a: u64, via_b: u64) -> u64 {
    match first {
        Venue::A => via_a,
        Venue::B => via_b,
    }
}

/// Starts on venue B only when that round trip returns strictly more; a tie
/// goes to venue A.
pub open spec fn select_route_spec(via_a: u64, via_b: u64) -> RouteDecision {
    if via_b > via_a {
        route_from(Venue::B)
    } else {
        route_from(Venue::A)
    }
}

/// Chooses which venue takes the first leg, from the quoted outputs of both
/// full round trips: `via_a` starts on venue A and ends on B, `via_b` the
/// reverse. The chosen order never returns less than the other one.
pub fn select_route(via_a: u64, via_b: u64) -> (r: RouteDecision)
    ensures
        r == select_route_spec(via_a, via_b),
        r.second == other_spec(r.first),
        round_trip_output(r.first, via_a, via_b) >= round_trip_output(
            other_spec(r.first),
            via_a,
            via_b,
        ),
{
    if via_b > via_a {
        RouteDecision { first: Venue::B, second: Venue::A }
    } else {
        RouteDecision { first: Venue::A, second: Venue::B }
    }
}

/// Output of swapping `amount` at `price` basis points: the product saturated
/// at `u64::MAX`, then divided by 10000.
pub open spec fn swap_outcome_spec(amount: u64, price: u64) -> int {
    clamp_u64(amount * price) / BPS_DENOMINATOR as int
}

/// Estimated output of swapping `amount` at a price given in basis points.
pub fn calculate_swap_outcome(amount: u64, price: u64) -> (r: u64)
    ensures
        r == swap_outcome_spec(amount, price),
{
    match amount.checked_mul(price) {
        Some(product) => product / BPS_DENOMINATOR,
        None => u64::MAX / BPS_DENOMINATOR,
    }
}

/// Profit of the round trip that prices `amount` at `first` and then at
/// `second`.
pub open spec fn path_profit_spec(amount: u64, first: u64, second: u64) -> int {
    sat_sub(swap_outcome_spec(swap_outcome_spec(amount, first) as u64, second), amount as int)
}

/// The better of the two orders and its profit, unless that profit is below
/// the pair's threshold; `true` means the first price's venue goes first. A
/// tie goes to the first order.
pub open spec fn opportunity_spec(pair_threshold: u64, amount: u64, first_price: u64, second_price: u64) -> Option<(u64, bool)> {
    let p1 = path_profit_spec(amount, first_price, second_price);
    let p2 = path_profit_spec(amount, second_price, first_price);
    if p1 >= p2 {
        if p1 >= pair_threshold {
            Some((p1 as u64, true))
        } else {
            None
        }
    } else if p2 >= pair_threshold {
        Some((p2 as u64, false))
    } else {
        None
    }
}

/// Checks both orders of a round trip priced at `jupiter_price` and
/// `raydium_price` (basis points) and returns the better one's profit and
/// whether Jupiter goes first (also on a tie), or `None` when that profit is
/// below the pair's threshold.
pub fn check_arbitrage_opportunity(
    pair: &TradingPair,
    amount: u64,
    jupiter_price: u64,
    raydium_price: u64,
) -> (r: Option<(u64, bool)>)
    ensures
        r == opportunity_spec(pair.min_profit_threshold, amount, jupiter_price, raydium_price),
{
    let jupiter_forward = calculate_swap_outcome(amount, jupiter_price);
    let raydium_back = calculate_swap_outcome(jupiter_forward, raydium_price);
    let profit_path1 = raydium_back.saturating_sub(amount);

    let raydium_forward = calculate_swap_outcome(amount, raydium_price);
    let jupiter_back = calculate_swap_outcome(raydium_forward, jupiter_price);
    let profit_path2 = jupiter_back.saturating_sub(amount);

    if profit_path1 >= profit_path2 {
        if profit_path1 >= pair.min_profit_threshold {
            Some((profit_path1, true))
        } else {
            None
        }
    } else if profit_path2 >= pair.min_profit_threshold {
        Some((profit_path2, false))
    } else {
        None
    }
}

} // verus!
