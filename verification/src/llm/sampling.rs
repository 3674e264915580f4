//! How the model is set up: its context, and how tokens are picked.

use vstd::prelude::*;

use crate::config::{Config, Settings};
use crate::prompt::Style;

verus! {

/// The bits of 0.01 in single precision.
pub const MIN_TEMPERATURE_BITS: u32 = 0x3c23_d70a;

/// The bits of positive infinity in single precision.
pub const INFINITY_BITS: u32 = 0x7f80_0000;

/// From how many of the likeliest tokens one is drawn.
pub const TOP_K: i32 = 40;

/// How tokens are picked.
#[derive(Debug, Clone, Copy, PartialEq, Eq, Structural)]
pub enum SamplerPlan {
    /// Always the likeliest token.
    Greedy,
    /// Scale by a temperature (the bits of a single-precision number), keep the
    /// `top_k` likeliest tokens, and draw one of them at random.
    Chain { temperature_bits: u32, top_k: i32, seed: u32 },
}

/// The greater of a temperature and 0.01, in single precision. The bits of
/// positive numbers are ordered as the numbers are; the bits of negative
/// numbers, and of what is no number, are all above those of infinity.
pub open spec fn effective_temperature(bits: u32) -> u32 {
    if MIN_TEMPERATURE_BITS <= bits <= INFINITY_BITS {
        bits
    } else {
        MIN_TEMPERATURE_BITS
    }
}

/// How tokens are picked for a style.
pub open spec fn sampler_plan(settings: Settings, style: Style) -> SamplerPlan {
    if style == Style::Grammar {
        SamplerPlan::Greedy
    } else {
        SamplerPlan::Chain {
            temperature_bits: effective_temperature(settings.temperature_bits),
            top_k: TOP_K,
            seed: settings.seed,
        }
    }
}

/// How tokens are picked: `Style::Grammar` uses greedy decoding (maximally
/// deterministic, slightly faster). All other styles use temperature → top-k →
/// stochastic dist.
pub fn sampler_for(config: &Config, style: Style) -> (r: SamplerPlan)
    ensures
        r == sampler_plan(config@, style),
{
    if style == Style::Grammar {
        SamplerPlan::Greedy
    } else {
        let bits: u32 = config.temperature_bits;
        let temperature_bits: u32 = if MIN_TEMPERATURE_BITS <= bits && bits <= INFINITY_BITS {
            bits
        } else {
            MIN_TEMPERATURE_BITS
        };
        SamplerPlan::Chain { temperature_bits, top_k: TOP_K, seed: config.seed }
    }
}

/// Whatever the settings, `Grammar` is greedy and every other style draws from
/// the 40 likeliest tokens with the seed of the settings. The temperature is that
/// of the settings where it is at least 0.01 (a number from 0.01 to infinity),
/// and else 0.01: it is never less, and a greater one is never changed.
pub proof fn only_grammar_is_greedy(settings: Settings, style: Style)
    ensures
        sampler_plan(settings, Style::Grammar) == SamplerPlan::Greedy,
        style != Style::Grammar ==> {
            &&& sampler_plan(settings, style) matches SamplerPlan::Chain {
                temperature_bits,
                top_k,
                seed,
            }
            &&& seed == settings.seed
            &&& top_k == 40
            &&& temperature_bits >= 0x3c23_d70au32
            &&& 0x3c23_d70au32 <= settings.temperature_bits <= 0x7f80_0000u32 ==> temperature_bits
                == settings.temperature_bits
            &&& settings.temperature_bits < 0x3c23_d70au32 || settings.temperature_bits
                > 0x7f80_0000u32 ==> temperature_bits == 0x3c23_d70au32
        },
{
}

/// The parameters of the model's context.
#[derive(Debug, Clone, Copy, PartialEq, Eq, Structural)]
pub struct ContextParams {
    pub n_ctx: u32,
    /// The number of threads for generation, where it is set.
    pub n_threads: Option<i32>,
    /// The number of threads for prefilling, where it is set.
    pub n_threads_batch: Option<i32>,
}

/// Build the context parameters from the active configuration.
pub fn make_ctx_params(config: &Config) -> (r: ContextParams)
    requires
        config.context_size != 0,
    ensures
        r.n_ctx == config@.context_size,
        r.n_ctx != 0,
        r.n_threads == config@.n_threads,
        r.n_threads_batch == config@.n_threads,
{
    ContextParams {
        n_ctx: config.context_size,
        n_threads: config.n_threads,
        n_threads_batch: config.n_threads,
    }
}

} // verus!
