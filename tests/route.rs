use arbitrage::pair::TradingPair;
use arbitrage::route::{
    calculate_swap_outcome, check_arbitrage_opportunity, select_route, RouteDecision, Venue,
};

fn pair(threshold: u64) -> TradingPair {
    TradingPair::new([1u8; 32], [2u8; 32], threshold).unwrap()
}

#[test]
fn select_route_prefers_higher_round_trip() {
    assert_eq!(select_route(1_020_000, 1_015_000), RouteDecision { first: Venue::A, second: Venue::B });
    assert_eq!(select_route(1_015_000, 1_020_000), RouteDecision { first: Venue::B, second: Venue::A });
}

#[test]
fn select_route_tie_goes_to_a() {
    assert_eq!(select_route(7, 7), RouteDecision { first: Venue::A, second: Venue::B });
    assert_eq!(select_route(0, 0), RouteDecision { first: Venue::A, second: Venue::B });
}

#[test]
fn select_route_never_picks_worse() {
    let values = [0u64, 1, 990_000, 1_000_000, u64::MAX];
    for &a in values.iter() {
        for &b in values.iter() {
            let r = select_route(a, b);
            let (chosen, other) = if r.first == Venue::A { (a, b) } else { (b, a) };
            assert!(chosen >= other);
        }
    }
}

#[test]
fn swap_outcome_uses_basis_points() {
    assert_eq!(calculate_swap_outcome(1_000_000, 9_900), 990_000);
    assert_eq!(calculate_swap_outcome(990_000, 9_800), 970_200);
    assert_eq!(calculate_swap_outcome(0, 9_900), 0);
    assert_eq!(calculate_swap_outcome(1, 19_999), 1);
}

#[test]
fn swap_outcome_saturates() {
    assert_eq!(calculate_swap_outcome(u64::MAX, 2), u64::MAX / 10_000);
}

#[test]
fn opportunity_takes_strictly_better_first_order() {
    assert_eq!(check_arbitrage_opportunity(&pair(0), 1, 20_000, 19_999), Some((2, true)));
    assert_eq!(check_arbitrage_opportunity(&pair(0), 1, 19_999, 20_000), Some((2, false)));
}

#[test]
fn opportunity_tie_goes_to_first_order() {
    assert_eq!(check_arbitrage_opportunity(&pair(1_000), 1_000_000, 10_100, 10_000), Some((10_000, true)));
    assert_eq!(check_arbitrage_opportunity(&pair(1_000), 1_000_000, 10_500, 10_000), Some((50_000, true)));
}

#[test]
fn opportunity_at_threshold_is_taken() {
    assert_eq!(check_arbitrage_opportunity(&pair(10_000), 1_000_000, 10_100, 10_000), Some((10_000, true)));
    assert_eq!(check_arbitrage_opportunity(&pair(50_000), 1_000_000, 10_500, 10_000), Some((50_000, true)));
    assert_eq!(check_arbitrage_opportunity(&pair(2), 1, 19_999, 20_000), Some((2, false)));
    assert_eq!(check_arbitrage_opportunity(&pair(0), 1_000_000, 9_900, 9_800), Some((0, true)));
    assert_eq!(check_arbitrage_opportunity(&pair(0), 0, 20_000, 20_000), Some((0, true)));
}

#[test]
fn opportunity_below_threshold_is_none() {
    assert_eq!(check_arbitrage_opportunity(&pair(3), 1, 20_000, 19_999), None);
    assert_eq!(check_arbitrage_opportunity(&pair(10_001), 1_000_000, 10_100, 10_000), None);
    assert_eq!(check_arbitrage_opportunity(&pair(1), 1_000_000, 9_900, 9_800), None);
    assert_eq!(check_arbitrage_opportunity(&pair(1), 0, 20_000, 20_000), None);
}
