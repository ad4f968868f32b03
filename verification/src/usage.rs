//! Token accounting: what a backend reports, what it costs, and how the cost
//! is written.
//!
//! Amounts of money are exact. A cost is a whole number of pico-dollars
//! (`10^-12` dollar): one token at a price of one micro-dollar per million
//! tokens costs exactly one pico-dollar. A cost is written with three
//! decimals, and a cost that lies exactly half-way between two such numbers
//! is written as the larger one.

use crate::config::{Config, DeepSeekPricing, ModelPricing};
use crate::text::{decimal, digit_char, digit_str, push_decimal};
use vstd::prelude::*;
use vstd::string::StringExecFns;

verus! {

/// Token counters as one backend reports them. While a backend streams, each
/// report is a running total, not an increment.
#[derive(Clone, Copy, Debug, PartialEq, Eq)]
pub struct BackendUsage {
    pub input_tokens: u32,
    pub output_tokens: u32,
    pub total_tokens: u32,
}

pub open spec fn max_u32(a: u32, b: u32) -> u32 {
    if a >= b {
        a
    } else {
        b
    }
}

/// The larger of each counter.
pub open spec fn watermark(seen: BackendUsage, snapshot: BackendUsage) -> BackendUsage {
    BackendUsage {
        input_tokens: max_u32(seen.input_tokens, snapshot.input_tokens),
        output_tokens: max_u32(seen.output_tokens, snapshot.output_tokens),
        total_tokens: max_u32(seen.total_tokens, snapshot.total_tokens),
    }
}

/// The usage after a run of snapshots, taken in order from `seen`.
pub open spec fn watermark_all(seen: BackendUsage, snapshots: Seq<BackendUsage>) -> BackendUsage
    decreases snapshots.len(),
{
    if snapshots.len() == 0 {
        seen
    } else {
        watermark(watermark_all(seen, snapshots.drop_last()), snapshots.last())
    }
}

/// `a` reports no counter above `b`'s.
pub open spec fn usage_le(a: BackendUsage, b: BackendUsage) -> bool {
    &&& a.input_tokens <= b.input_tokens
    &&& a.output_tokens <= b.output_tokens
    &&& a.total_tokens <= b.total_tokens
}

impl BackendUsage {
    /// Nothing counted yet.
    pub open spec fn zero() -> BackendUsage {
        BackendUsage { input_tokens: 0, output_tokens: 0, total_tokens: 0 }
    }

    /// Nothing counted yet.
    pub fn new() -> (usage: BackendUsage)
        ensures
            usage == BackendUsage::zero(),
    {
        BackendUsage { input_tokens: 0, output_tokens: 0, total_tokens: 0 }
    }

    /// Takes a new snapshot into account: each counter becomes the larger of
    /// what was held and what the snapshot reports.
    pub fn observe(&mut self, snapshot: &BackendUsage)
        ensures
            *final(self) == watermark(*old(self), *snapshot),
    {
        if snapshot.input_tokens > self.input_tokens {
            self.input_tokens = snapshot.input_tokens;
        }
        if snapshot.output_tokens > self.output_tokens {
            self.output_tokens = snapshot.output_tokens;
        }
        if snapshot.total_tokens > self.total_tokens {
            self.total_tokens = snapshot.total_tokens;
        }
    }
}

/// Pico-dollars in one thousandth of a dollar.
pub const PICO_PER_MILLI: u128 = 1_000_000_000;

/// No call costs more than this many pico-dollars, whatever the counters and
/// the prices: `2^98`.
pub const COST_LIMIT: u128 = 0x4_0000_0000_0000_0000_0000_0000;

/// Cost of one call of the reasoning backend, in pico-dollars.
pub open spec fn deepseek_cost_spec(
    input_tokens: u32,
    cached_tokens: u32,
    output_tokens: u32,
    pricing: DeepSeekPricing,
) -> nat {
    (cached_tokens * pricing.input_cache_hit_price + (input_tokens - cached_tokens)
        * pricing.input_cache_miss_price + output_tokens * pricing.output_price) as nat
}

/// Cost of one call of the answering backend, in pico-dollars.
pub open spec fn anthropic_cost_spec(
    input_tokens: u32,
    output_tokens: u32,
    cache_write_tokens: u32,
    cache_read_tokens: u32,
    pricing: ModelPricing,
) -> nat {
    (input_tokens * pricing.input_price + output_tokens * pricing.output_price
        + cache_write_tokens * pricing.cache_write_price + cache_read_tokens
        * pricing.cache_read_price) as nat
}

/// Tokens times a price, in pico-dollars.
fn charge(tokens: u32, price: u64) -> (amount: u128)
    ensures
        amount == tokens * price,
        amount <= 0xffff_ffff * 0xffff_ffff_ffff_ffff,
{
    assert(tokens * price <= 0xffff_ffff * 0xffff_ffff_ffff_ffff) by (nonlinear_arith)
        requires
            0 <= tokens <= 0xffff_ffff,
            0 <= price <= 0xffff_ffff_ffff_ffff,
    ;
    (tokens as u128) * (price as u128)
}

/// Cost of one call of the reasoning backend. Of its `input_tokens`,
/// `cached_tokens` are charged at the cache-hit price and the others at the
/// cache-miss price.
pub fn deepseek_cost(
    input_tokens: u32,
    cached_tokens: u32,
    output_tokens: u32,
    pricing: &DeepSeekPricing,
) -> (cost: u128)
    requires
        cached_tokens <= input_tokens,
    ensures
        cost == deepseek_cost_spec(input_tokens, cached_tokens, output_tokens, *pricing),
        cost <= COST_LIMIT,
{
    let hit = charge(cached_tokens, pricing.input_cache_hit_price);
    let miss = charge(input_tokens - cached_tokens, pricing.input_cache_miss_price);
    let output = charge(output_tokens, pricing.output_price);
    hit + miss + output
}

/// Cost of one call of the answering backend: input, output, and what was
/// written to and read from its prompt cache, each at its own price.
pub fn anthropic_cost(
    input_tokens: u32,
    output_tokens: u32,
    cache_write_tokens: u32,
    cache_read_tokens: u32,
    pricing: &ModelPricing,
) -> (cost: u128)
    ensures
        cost == anthropic_cost_spec(
            input_tokens,
            output_tokens,
            cache_write_tokens,
            cache_read_tokens,
            *pricing,
        ),
        cost <= COST_LIMIT,
{
    let input = charge(input_tokens, pricing.input_price);
    let output = charge(output_tokens, pricing.output_price);
    let write = charge(cache_write_tokens, pricing.cache_write_price);
    let read = charge(cache_read_tokens, pricing.cache_read_price);
    input + output + write + read
}

/// What the reasoning backend charges for a call that reports no cache hits.
pub open spec fn calculate_deepseek_cost_spec(
    input_tokens: u32,
    output_tokens: u32,
    config: Config,
) -> nat {
    deepseek_cost_spec(input_tokens, 0, output_tokens, config.pricing.deepseek)
}

/// What the answering backend charges for a call that reports no cache use.
pub open spec fn calculate_anthropic_cost_spec(
    input_tokens: u32,
    output_tokens: u32,
    config: Config,
) -> nat {
    anthropic_cost_spec(input_tokens, output_tokens, 0, 0, config.pricing.anthropic.claude_3_sonnet)
}

/// Cost of a call of the reasoning backend. The backend reports no cache
/// hits, so every input token is charged at the cache-miss price.
pub fn calculate_deepseek_cost(input_tokens: u32, output_tokens: u32, config: &Config) -> (cost:
    u128)
    ensures
        cost == calculate_deepseek_cost_spec(input_tokens, output_tokens, *config),
        cost == input_tokens * config.pricing.deepseek.input_cache_miss_price + output_tokens
            * config.pricing.deepseek.output_price,
        cost <= COST_LIMIT,
{
    let cached_tokens: u32 = 0;
    deepseek_cost(input_tokens, cached_tokens, output_tokens, &config.pricing.deepseek)
}

/// Cost of a call of the answering backend. The backend reports no cache
/// use, so only input and output are charged.
pub fn calculate_anthropic_cost(input_tokens: u32, output_tokens: u32, config: &Config) -> (cost:
    u128)
    ensures
        cost == calculate_anthropic_cost_spec(input_tokens, output_tokens, *config),
        cost == input_tokens * config.pricing.anthropic.claude_3_sonnet.input_price
            + output_tokens * config.pricing.anthropic.claude_3_sonnet.output_price,
        cost <= COST_LIMIT,
{
    let cache_write_tokens: u32 = 0;
    let cache_read_tokens: u32 = 0;
    anthropic_cost(
        input_tokens,
        output_tokens,
        cache_write_tokens,
        cache_read_tokens,
        &config.pricing.anthropic.claude_3_sonnet,
    )
}

/// A cost in thousandths of a dollar, rounded to the nearest; a cost exactly
/// half-way is rounded up.
pub open spec fn rounded_millis(cost: nat) -> nat {
    if cost % 1_000_000_000 >= 500_000_000 {
        cost / 1_000_000_000 + 1
    } else {
        cost / 1_000_000_000
    }
}

/// A cost as it is written: `$`, the whole dollars, a point, three decimals.
pub open spec fn cost_text(cost: nat) -> Seq<char> {
    let millis = rounded_millis(cost);
    seq!['$'] + decimal(millis / 1000) + seq![
        '.',
        digit_char((millis / 100 % 10) as int),
        digit_char((millis / 10 % 10) as int),
        digit_char((millis % 10) as int),
    ]
}

/// Writes a cost in dollars with exactly three decimals, rounded to the
/// nearest thousandth, half-way cases up: `1_500_000_000` pico-dollars
/// (`$0.0015`) is written `$0.002`.
pub fn format_cost(cost: u128) -> (text: String)
    ensures
        text@ == cost_text(cost as nat),
{
    let whole_millis: u128 = cost / PICO_PER_MILLI;
    let millis: u128 = if cost % PICO_PER_MILLI >= PICO_PER_MILLI / 2 {
        whole_millis + 1
    } else {
        whole_millis
    };
    assert(millis == rounded_millis(cost as nat));
    let mut text = String::from_str("$");
    push_decimal(&mut text, millis / 1000);
    text.append(".");
    text.append(digit_str((millis / 100 % 10) as u8));
    text.append(digit_str((millis / 10 % 10) as u8));
    text.append(digit_str((millis % 10) as u8));
    proof {
        reveal_strlit("$");
        reveal_strlit(".");
        assert(text@ =~= cost_text(cost as nat));
    }
    text
}

/// What is reported of the reasoning backend's call: its counters and what
/// they cost.
#[derive(Clone, Debug, PartialEq, Eq)]
pub struct DeepSeekUsage {
    pub input_tokens: u32,
    pub output_tokens: u32,
    pub total_tokens: u32,
    pub total_cost: String,
}

/// What is reported of the answering backend's call: its counters and what
/// they cost.
#[derive(Clone, Debug, PartialEq, Eq)]
pub struct AnthropicUsage {
    pub input_tokens: u32,
    pub output_tokens: u32,
    pub total_tokens: u32,
    pub total_cost: String,
}

/// The usage of both calls, and the cost of both together.
#[derive(Clone, Debug, PartialEq, Eq)]
pub struct CombinedUsage {
    pub total_cost: String,
    pub deepseek_usage: DeepSeekUsage,
    pub anthropic_usage: AnthropicUsage,
}

/// One backend's reported usage, as a value.
pub struct UsageView {
    pub input_tokens: u32,
    pub output_tokens: u32,
    pub total_tokens: u32,
    pub total_cost: Seq<char>,
}

/// A `CombinedUsage`, as a value.
pub struct CombinedUsageView {
    pub total_cost: Seq<char>,
    pub deepseek_usage: UsageView,
    pub anthropic_usage: UsageView,
}

impl DeepView for DeepSeekUsage {
    type V = UsageView;

    open spec fn deep_view(&self) -> UsageView {
        UsageView {
            input_tokens: self.input_tokens,
            output_tokens: self.output_tokens,
            total_tokens: self.total_tokens,
            total_cost: self.total_cost@,
        }
    }
}

impl DeepView for AnthropicUsage {
    type V = UsageView;

    open spec fn deep_view(&self) -> UsageView {
        UsageView {
            input_tokens: self.input_tokens,
            output_tokens: self.output_tokens,
            total_tokens: self.total_tokens,
            total_cost: self.total_cost@,
        }
    }
}

impl DeepView for CombinedUsage {
    type V = CombinedUsageView;

    open spec fn deep_view(&self) -> CombinedUsageView {
        CombinedUsageView {
            total_cost: self.total_cost@,
            deepseek_usage: self.deepseek_usage.deep_view(),
            anthropic_usage: self.anthropic_usage.deep_view(),
        }
    }
}

/// The report on a pair of final usages: each backend's counters with their
/// cost, and the sum of the two costs, rounded once.
pub open spec fn combined_usage_spec(
    deepseek: BackendUsage,
    anthropic: BackendUsage,
    config: Config,
) -> CombinedUsageView {
    let deepseek_cost = calculate_deepseek_cost_spec(
        deepseek.input_tokens,
        deepseek.output_tokens,
        config,
    );
    let anthropic_cost = calculate_anthropic_cost_spec(
        anthropic.input_tokens,
        anthropic.output_tokens,
        config,
    );
    CombinedUsageView {
        total_cost: cost_text(deepseek_cost + anthropic_cost),
        deepseek_usage: UsageView {
            input_tokens: deepseek.input_tokens,
            output_tokens: deepseek.output_tokens,
            total_tokens: deepseek.total_tokens,
            total_cost: cost_text(deepseek_cost),
        },
        anthropic_usage: UsageView {
            input_tokens: anthropic.input_tokens,
            output_tokens: anthropic.output_tokens,
            total_tokens: anthropic.total_tokens,
            total_cost: cost_text(anthropic_cost),
        },
    }
}

/// Prices the final usage of both backends. The total is the sum of the two
/// exact costs, rounded after the addition.
pub fn combined_usage(deepseek: &BackendUsage, anthropic: &BackendUsage, config: &Config) -> (usage:
    CombinedUsage)
    ensures
        usage.deep_view() == combined_usage_spec(*deepseek, *anthropic, *config),
{
    let deepseek_cost = calculate_deepseek_cost(
        deepseek.input_tokens,
        deepseek.output_tokens,
        config,
    );
    let anthropic_cost = calculate_anthropic_cost(
        anthropic.input_tokens,
        anthropic.output_tokens,
        config,
    );
    CombinedUsage {
        total_cost: format_cost(deepseek_cost + anthropic_cost),
        deepseek_usage: DeepSeekUsage {
            input_tokens: deepseek.input_tokens,
            output_tokens: deepseek.output_tokens,
            total_tokens: deepseek.total_tokens,
            total_cost: format_cost(deepseek_cost),
        },
        anthropic_usage: AnthropicUsage {
            input_tokens: anthropic.input_tokens,
            output_tokens: anthropic.output_tokens,
            total_tokens: anthropic.total_tokens,
            total_cost: format_cost(anthropic_cost),
        },
    }
}

} // verus!
