use vstd::prelude::*;
use crate::error::ConfigError;
use vstd::string::StringSliceAdditionalSpecFns;

verus! {

/// Where a priority fee comes from.
#[derive(PartialEq, Eq, Structural, Clone, Copy, Debug)]
pub enum FeeStrategy {
    Helius,
    Triton,
    Alchemy,
    /// The configured constant.
    Static,
}

/// ASCII bytes of `helius`.
pub open spec fn helius_name() -> Seq<u8> {
    seq![104u8, 101, 108, 105, 117, 115]
}

/// ASCII bytes of `triton`.
pub open spec fn triton_name() -> Seq<u8> {
    seq![116u8, 114, 105, 116, 111, 110]
}

/// ASCII bytes of `alchemy`.
pub open spec fn alchemy_name() -> Seq<u8> {
    seq![97u8, 108, 99, 104, 101, 109, 121]
}

/// The strategy that a configuration selects: the static one where no
/// provider URL is set, else the provider that `name` spells.
pub open spec fn strategy_for(has_url: bool, name: Seq<u8>) -> Option<FeeStrategy> {
    if !has_url {
        Some(FeeStrategy::Static)
    } else if name == helius_name() {
        Some(FeeStrategy::Helius)
    } else if name == triton_name() {
        Some(FeeStrategy::Triton)
    } else if name == alchemy_name() {
        Some(FeeStrategy::Alchemy)
    } else {
        None
    }
}

fn bytes_equal(a: &[u8], b: &Vec<u8>) -> (r: bool)
    ensures
        r == (a@ == b@),
{
    if a.len() != b.len() {
        return false;
    }
    let mut i: usize = 0;
    while i < a.len()
        invariant
            a@.len() == b@.len(),
            i <= a@.len(),
            forall|j: int| 0 <= j < i ==> a@[j] == b@[j],
        decreases a@.len() - i,
    {
        if a[i] != b[i] {
            return false;
        }
        i = i + 1;
    }
    assert(a@ =~= b@);
    true
}

/// Selects the fee strategy once, at startup. Without a provider URL the
/// static fee is used; with one, `name` must be `helius`, `triton` or
/// `alchemy`, and anything else is a configuration error.
pub fn parse_strategy(has_url: bool, name: &str) -> (r: Result<FeeStrategy, ConfigError>)
    ensures
        match strategy_for(has_url, name.spec_bytes()) {
            Some(s) => r == Ok::<FeeStrategy, ConfigError>(s),
            None => r == Err::<FeeStrategy, ConfigError>(ConfigError::InvalidFeeStrategy),
        },
{
    if !has_url {
        return Ok(FeeStrategy::Static);
    }
    let b = name.as_bytes();
    let helius: Vec<u8> = vec![104u8, 101, 108, 105, 117, 115];
    let triton: Vec<u8> = vec![116u8, 114, 105, 116, 111, 110];
    let alchemy: Vec<u8> = vec![97u8, 108, 99, 104, 101, 109, 121];
    assert(helius@ == helius_name());
    assert(triton@ == triton_name());
    assert(alchemy@ == alchemy_name());
    if bytes_equal(b, &helius) {
        Ok(FeeStrategy::Helius)
    } else if bytes_equal(b, &triton) {
        Ok(FeeStrategy::Triton)
    } else if bytes_equal(b, &alchemy) {
        Ok(FeeStrategy::Alchemy)
    } else {
        Err(ConfigError::InvalidFeeStrategy)
    }
}

/// The fee settings that the estimator is configured with.
#[derive(PartialEq, Eq, Structural, Clone, Copy, Debug)]
pub struct FeeConfig {
    pub strategy: FeeStrategy,
    /// Micro-lamports per compute unit when no provider answers.
    pub static_fee: u64,
    /// Ceiling on any quote.
    pub max_fee: u64,
}

/// A priority fee in micro-lamports per compute unit, the strategy that
/// produced it, and when it was fetched.
#[derive(PartialEq, Eq, Structural, Clone, Copy, Debug)]
pub struct FeeQuote {
    pub micro_lamports: u64,
    pub source: FeeStrategy,
    pub fetched_at: u64,
}

pub open spec fn min_u64(a: u64, b: u64) -> u64 {
    if a <= b {
        a
    } else {
        b
    }
}

/// The quote for one cycle. A provider's estimate is used where it answered;
/// where it did not (or no provider is configured) the static fee is; either
/// way the result is capped at the ceiling.
pub open spec fn quote_spec(config: FeeConfig, estimate: Option<u64>, now: u64) -> FeeQuote {
    match (config.strategy, estimate) {
        (FeeStrategy::Static, _) | (_, None) => FeeQuote {
            micro_lamports: min_u64(config.static_fee, config.max_fee),
            source: FeeStrategy::Static,
            fetched_at: now,
        },
        (s, Some(v)) => FeeQuote {
            micro_lamports: min_u64(v, config.max_fee),
            source: s,
            fetched_at: now,
        },
    }
}

/// Builds the cycle's fee quote from the provider's estimate, `None` where
/// the query or its parsing failed. Never fails itself.
pub fn quote(config: &FeeConfig, estimate: Option<u64>, now: u64) -> (r: FeeQuote)
    ensures
        r == quote_spec(*config, estimate, now),
{
    match (config.strategy, estimate) {
        (FeeStrategy::Static, _) | (_, None) => {
            let fee = if config.static_fee <= config.max_fee {
                config.static_fee
            } else {
                config.max_fee
            };
            FeeQuote { micro_lamports: fee, source: FeeStrategy::Static, fetched_at: now }
        },
        (s, Some(v)) => {
            let fee = if v <= config.max_fee {
                v
            } else {
                config.max_fee
            };
            FeeQuote { micro_lamports: fee, source: s, fetched_at: now }
        },
    }
}

/// A failed provider query yields the configured static fee, where that fee
/// lies within the ceiling.
pub proof fn lemma_fee_fallback(config: FeeConfig, now: u64)
    requires
        config.static_fee <= config.max_fee,
    ensures
        quote_spec(config, None, now).micro_lamports == config.static_fee,
        quote_spec(config, None, now).source == FeeStrategy::Static,
{
}

/// Any estimate above the ceiling is quoted as the ceiling, and one within it
/// as itself.
pub proof fn lemma_fee_ceiling(config: FeeConfig, estimate: u64, now: u64)
    requires
        config.strategy != FeeStrategy::Static,
    ensures
        estimate > config.max_fee ==> quote_spec(config, Some(estimate), now).micro_lamports
            == config.max_fee,
        estimate <= config.max_fee ==> quote_spec(config, Some(estimate), now).micro_lamports
            == estimate,
        quote_spec(config, Some(estimate), now).micro_lamports <= config.max_fee,
{
}

pub open spec fn is_digit(b: u8) -> bool {
    48 <= b <= 57
}

/// Number of decimal digits at the start of `s`.
pub open spec fn leading_digits(s: Seq<u8>) -> nat
    decreases s.len(),
{
    if s.len() == 0 || !is_digit(s[0]) {
        0
    } else {
        1 + leading_digits(s.drop_first())
    }
}

/// Value of a run of decimal digits.
pub open spec fn digits_value(s: Seq<u8>) -> nat
    decreases s.len(),
{
    if s.len() == 0 {
        0
    } else {
        digits_value(s.drop_last()) * 10 + (s.last() - 48) as nat
    }
}

/// A provider's fee estimate read from its decimal text: one or more digits,
/// optionally followed by a point and more digits, which are dropped. `None`
/// for any other text, or where the whole part does not fit in a `u64`.
pub open spec fn fee_estimate_of(s: Seq<u8>) -> Option<u64> {
    let p = leading_digits(s);
    let whole = digits_value(s.subrange(0, p as int));
    if p > 0 && (p == s.len() || (s[p as int] == 46 && leading_digits(s.subrange(p as int + 1, s.len() as int))
        == s.len() - p - 1)) && whole <= u64::MAX {
        Some(whole as u64)
    } else {
        None
    }
}

proof fn lemma_leading_digits(s: Seq<u8>, i: int)
    requires
        0 <= i <= s.len(),
        forall|j: int| 0 <= j < i ==> is_digit(#[trigger] s[j]),
        i == s.len() || !is_digit(s[i]),
    ensures
        leading_digits(s) == i,
    decreases i,
{
    if i > 0 {
        lemma_leading_digits(s.drop_first(), i - 1);
    }
}

fn scan_digits(s: &[u8], from: usize) -> (r: usize)
    requires
        from <= s@.len(),
    ensures
        from <= r <= s@.len(),
        r == from + leading_digits(s@.subrange(from as int, s@.len() as int)),
        forall|j: int| from <= j < r ==> is_digit(#[trigger] s@[j]),
{
    let mut i = from;
    while i < s.len() && s[i] >= 48 && s[i] <= 57
        invariant
            from <= i <= s@.len(),
            forall|j: int| from <= j < i ==> is_digit(#[trigger] s@[j]),
        decreases s@.len() - i,
    {
        i = i + 1;
    }
    proof {
        let t = s@.subrange(from as int, s@.len() as int);
        assert forall|j: int| 0 <= j < i - from implies is_digit(#[trigger] t[j]) by {
            assert(t[j] == s@[from + j]);
        }
        lemma_leading_digits(t, i - from);
    }
    i
}

/// Reads a provider's fee estimate from its decimal text; `None` where the
/// text is not a number of that shape, which the quote treats as a failed
/// query.
pub fn parse_fee_estimate(s: &[u8]) -> (r: Option<u64>)
    ensures
        r == fee_estimate_of(s@),
{
    let n = s.len();
    let p = scan_digits(s, 0);
    assert(s@.subrange(0, n as int) =~= s@);
    let mut acc: u64 = 0;
    let mut overflow = false;
    let mut i: usize = 0;
    while i < p
        invariant
            p <= n == s@.len(),
            i <= p,
            forall|j: int| 0 <= j < p ==> is_digit(#[trigger] s@[j]),
            !overflow ==> acc == digits_value(s@.subrange(0, i as int)),
            overflow ==> digits_value(s@.subrange(0, i as int)) > u64::MAX,
        decreases p - i,
    {
        let ghost pre = s@.subrange(0, i as int);
        assert(s@.subrange(0, i + 1).drop_last() =~= pre);
        assert(is_digit(s@[i as int]));
        let d = (s[i] - 48) as u64;
        if !overflow {
            if acc > (u64::MAX - d) / 10 {
                overflow = true;
            } else {
                acc = acc * 10 + d;
            }
        }
        i = i + 1;
    }
    if p == 0 || overflow {
        return None;
    }
    if p == n {
        return Some(acc);
    }
    if s[p] != 46 {
        return None;
    }
    let q = scan_digits(s, p + 1);
    if q == n {
        Some(acc)
    } else {
        None
    }
}

/// The quote for a provider's answer: its text where the query returned one,
/// `None` where the query failed.
pub fn quote_from_answer(config: &FeeConfig, answer: Option<&[u8]>, now: u64) -> (r: FeeQuote)
    ensures
        r == quote_spec(
            *config,
            match answer {
                Some(a) => fee_estimate_of(a@),
                None => None,
            },
            now,
        ),
{
    let estimate = match answer {
        Some(a) => parse_fee_estimate(a),
        None => None,
    };
    quote(config, estimate, now)
}

} // verus!
