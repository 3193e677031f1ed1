use std::str::FromStr;

use anchor_lang::prelude::Pubkey;
use arbitrage::pair::{same_address, supported_pairs, TradingPair, SOL_MINT, USDC_MINT};

#[test]
fn pair_of_equal_tokens_is_refused() {
    assert!(TradingPair::new([3u8; 32], [3u8; 32], 0).is_none());
    let p = TradingPair::new([3u8; 32], [4u8; 32], 9).unwrap();
    assert_eq!(p.token_a, [3u8; 32]);
    assert_eq!(p.token_b, [4u8; 32]);
    assert_eq!(p.min_profit_threshold, 9);
}

#[test]
fn same_address_compares_every_byte() {
    let a = [7u8; 32];
    let mut b = a;
    assert!(same_address(&a, &b));
    b[31] = 8;
    assert!(!same_address(&a, &b));
    b = a;
    b[0] = 0;
    assert!(!same_address(&a, &b));
}

#[test]
fn registry_holds_usdc_sol() {
    let pairs = supported_pairs();
    assert_eq!(pairs.len(), 1);
    let p = pairs[0];
    assert_eq!(p.token_a, Pubkey::from_str(USDC_MINT).unwrap().to_bytes());
    assert_eq!(p.token_b, Pubkey::from_str(SOL_MINT).unwrap().to_bytes());
    assert_eq!(p.token_b[0], 6);
    assert_eq!(p.token_b[31], 1);
    assert_ne!(p.token_a, p.token_b);
    assert_eq!(p.min_profit_threshold, 1_000_000);
}
