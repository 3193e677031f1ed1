use vstd::prelude::*;

use anchor_lang::prelude::Pubkey;

verus! {

/// Mint address of USDC, base58.
pub const USDC_MINT: &'static str = "EPjFWdd5AufqSSqeM2qN1xzybapC8G4wEGGkZwyTDt1v";

/// Mint address of wrapped SOL, base58.
pub const SOL_MINT: &'static str = "So11111111111111111111111111111111111111112";

/// Smallest profit worth a USDC/SOL run: one USDC, in its smallest unit.
pub const USDC_SOL_MIN_PROFIT: u64 = 1_000_000;

/// The 32 bytes of an address decoded from base58 text, if the text is one.
pub uninterp spec fn decoded_address(s: Seq<char>) -> Option<Seq<u8>>;

/// Relies on `Pubkey`'s `FromStr` (base58 decoding of exactly 32 bytes): the
/// result depends on the text alone.
#[verifier::external_body]
fn parse_address(s: &str) -> (r: Option<[u8; 32]>)
    ensures
        match r {
            Some(k) => decoded_address(s@) == Some(k@),
            None => decoded_address(s@) is None,
        },
{
    match s.parse::<Pubkey>() {
        Ok(k) => Some(k.to_bytes()),
        Err(_) => None,
    }
}

/// Two assets that a run trades between, and the pair's own minimum profit.
/// `token_a` is the asset the loan is taken and settled in.
#[derive(Clone, Copy, Debug)]
pub struct TradingPair {
    pub token_a: [u8; 32],
    pub token_b: [u8; 32],
    pub min_profit_threshold: u64,
}

impl TradingPair {
    /// The two assets differ.
    pub open spec fn wf(&self) -> bool {
        self.token_a@ != self.token_b@
    }

    /// A pair of two different assets; `None` when they are the same.
    pub fn new(token_a: [u8; 32], token_b: [u8; 32], min_profit_threshold: u64) -> (r: Option<
        TradingPair,
    >)
        ensures
            r is None <==> token_a@ == token_b@,
            r matches Some(p) ==> p.wf() && p.token_a@ == token_a@ && p.token_b@ == token_b@
                && p.min_profit_threshold == min_profit_threshold,
    {
        if same_address(&token_a, &token_b) {
            None
        } else {
            Some(TradingPair { token_a, token_b, min_profit_threshold })
        }
    }
}

/// Whether two addresses are equal, byte for byte.
pub fn same_address(a: &[u8; 32], b: &[u8; 32]) -> (r: bool)
    ensures
        r == (a@ == b@),
{
    let mut i: usize = 0;
    while i < 32
        invariant
            0 <= i <= 32,
            a@.len() == 32,
            b@.len() == 32,
            forall|j: int| 0 <= j < i ==> a@[j] == b@[j],
        decreases 32 - i,
    {
        if a[i] != b[i] {
            assert(a@[i as int] != b@[i as int]);
            return false;
        }
        i = i + 1;
    }
    assert(a@ =~= b@);
    true
}

/// The pairs that runs may trade: USDC against SOL, with a minimum profit of
/// one USDC. A pair whose addresses do not decode is left out.
pub fn supported_pairs() -> (r: Vec<TradingPair>)
    ensures
        r@.len() <= 1,
        forall|i: int|
            0 <= i < r@.len() ==> {
                &&& r@[i].wf()
                &&& decoded_address(USDC_MINT@) == Some(r@[i].token_a@)
                &&& decoded_address(SOL_MINT@) == Some(r@[i].token_b@)
                &&& r@[i].min_profit_threshold == USDC_SOL_MIN_PROFIT
            },
        r@.len() == 1 <== (decoded_address(USDC_MINT@) matches Some(a) && decoded_address(
            SOL_MINT@,
        ) matches Some(b) && a != b),
{
    let mut pairs: Vec<TradingPair> = Vec::new();
    match (parse_address(USDC_MINT), parse_address(SOL_MINT)) {
        (Some(usdc), Some(sol)) => {
            match TradingPair::new(usdc, sol, USDC_SOL_MIN_PROFIT) {
                Some(p) => pairs.push(p),
                None => {},
            }
        },
        _ => {},
    }
    pairs
}

} // verus!
