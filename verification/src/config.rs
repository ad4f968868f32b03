//! The price table, fixed for the life of the process.
//!
//! Every price is a whole number of micro-dollars per million tokens, so a
//! price of `$0.55` per million tokens is written `550_000`.

use vstd::prelude::*;

verus! {

/// Prices of the reasoning backend.
#[derive(Clone, Copy, Debug, PartialEq, Eq)]
pub struct DeepSeekPricing {
    /// Input tokens that were served from the backend's prompt cache.
    pub input_cache_hit_price: u64,
    /// Input tokens that were not.
    pub input_cache_miss_price: u64,
    pub output_price: u64,
}

/// Prices of one model of the answering backend.
#[derive(Clone, Copy, Debug, PartialEq, Eq)]
pub struct ModelPricing {
    pub input_price: u64,
    pub output_price: u64,
    pub cache_write_price: u64,
    pub cache_read_price: u64,
}

/// Prices of the answering backend, by model.
#[derive(Clone, Copy, Debug, PartialEq, Eq)]
pub struct AnthropicPricing {
    pub claude_3_sonnet: ModelPricing,
}

#[derive(Clone, Copy, Debug, PartialEq, Eq)]
pub struct PricingConfig {
    pub deepseek: DeepSeekPricing,
    pub anthropic: AnthropicPricing,
}

#[derive(Clone, Copy, Debug, PartialEq, Eq)]
pub struct Config {
    pub pricing: PricingConfig,
}

/// What every request sees of the process: its configuration, read-only.
#[derive(Clone, Copy, Debug, PartialEq, Eq)]
pub struct AppState {
    pub config: Config,
}

} // verus!
