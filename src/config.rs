//! Sampling parameters sent with every completion request.
//!
//! The fractional parameters are held in thousandths (`700` stands for 0.7),
//! so that every value is an exact integer and clamping can be proved.
use vstd::prelude::*;

verus! {

/// Lowest accepted temperature, in thousandths.
pub const TEMPERATURE_MIN: i32 = 0;

/// Highest accepted temperature, in thousandths.
pub const TEMPERATURE_MAX: i32 = 2000;

/// Lowest accepted nucleus-sampling mass, in thousandths.
pub const TOP_P_MIN: i32 = 0;

/// Highest accepted nucleus-sampling mass, in thousandths.
pub const TOP_P_MAX: i32 = 1000;

/// Lowest accepted frequency or presence penalty, in thousandths.
pub const PENALTY_MIN: i32 = -2000;

/// Highest accepted frequency or presence penalty, in thousandths.
pub const PENALTY_MAX: i32 = 2000;

/// Smallest accepted completion length, in tokens.
pub const MAX_TOKENS_MIN: u32 = 1;

pub const DEFAULT_TEMPERATURE: i32 = 700;

pub const DEFAULT_MAX_TOKENS: u32 = 800;

pub const DEFAULT_TOP_P: i32 = 950;

pub const DEFAULT_FREQUENCY_PENALTY: i32 = 0;

pub const DEFAULT_PRESENCE_PENALTY: i32 = 0;

/// `v` saturated into the closed range `[lo, hi]`.
pub open spec fn clamped(v: int, lo: int, hi: int) -> int {
    if v < lo {
        lo
    } else if v > hi {
        hi
    } else {
        v
    }
}

/// Clamping never leaves the range, and keeps a value that already lies in it.
pub proof fn lemma_clamped_in_range(v: int, lo: int, hi: int)
    requires
        lo <= hi,
    ensures
        lo <= clamped(v, lo, hi) <= hi,
        lo <= v <= hi ==> clamped(v, lo, hi) == v,
        clamped(clamped(v, lo, hi), lo, hi) == clamped(v, lo, hi),
{
}

/// Saturates `v` into `[lo, hi]`.
pub fn clamp_i32(v: i32, lo: i32, hi: i32) -> (r: i32)
    requires
        lo <= hi,
    ensures
        r == clamped(v as int, lo as int, hi as int),
{
    if v < lo {
        lo
    } else if v > hi {
        hi
    } else {
        v
    }
}

/// The finished, immutable generation parameters.
#[derive(Debug, Clone, PartialEq, Eq)]
pub struct GptConfig {
    /// Sampling temperature in thousandths, within `[0, 2000]`.
    pub temperature: i32,
    /// Upper bound on generated tokens, at least 1.
    pub max_tokens: u32,
    /// Nucleus-sampling mass in thousandths, within `[0, 1000]`.
    pub top_p: i32,
    /// Frequency penalty in thousandths, within `[-2000, 2000]`.
    pub frequency_penalty: i32,
    /// Presence penalty in thousandths, within `[-2000, 2000]`.
    pub presence_penalty: i32,
    /// Stop sequences, in order; `None` when there are none to send.
    pub stop: Option<Vec<String>>,
}

impl GptConfig {
    /// Every numeric field lies in its documented range.
    pub open spec fn wf(&self) -> bool {
        &&& TEMPERATURE_MIN <= self.temperature <= TEMPERATURE_MAX
        &&& MAX_TOKENS_MIN <= self.max_tokens
        &&& TOP_P_MIN <= self.top_p <= TOP_P_MAX
        &&& PENALTY_MIN <= self.frequency_penalty <= PENALTY_MAX
        &&& PENALTY_MIN <= self.presence_penalty <= PENALTY_MAX
    }

    /// The configuration used when nothing is set.
    pub open spec fn is_default(&self) -> bool {
        &&& self.temperature == DEFAULT_TEMPERATURE
        &&& self.max_tokens == DEFAULT_MAX_TOKENS
        &&& self.top_p == DEFAULT_TOP_P
        &&& self.frequency_penalty == DEFAULT_FREQUENCY_PENALTY
        &&& self.presence_penalty == DEFAULT_PRESENCE_PENALTY
        &&& self.stop is None
    }

    /// A builder with no field set.
    pub fn builder() -> (r: GptConfigBuilder)
        ensures
            r.is_empty(),
    {
        GptConfigBuilder::default()
    }
}

impl Default for GptConfig {
    fn default() -> (r: Self)
        ensures
            r.is_default(),
            r.wf(),
    {
        GptConfig {
            temperature: DEFAULT_TEMPERATURE,
            max_tokens: DEFAULT_MAX_TOKENS,
            top_p: DEFAULT_TOP_P,
            frequency_penalty: DEFAULT_FREQUENCY_PENALTY,
            presence_penalty: DEFAULT_PRESENCE_PENALTY,
            stop: None,
        }
    }
}

/// Collects generation parameters one at a time; each setter clamps its value.
#[derive(Debug, Clone)]
pub struct GptConfigBuilder {
    pub temperature: Option<i32>,
    pub max_tokens: Option<u32>,
    pub top_p: Option<i32>,
    pub frequency_penalty: Option<i32>,
    pub presence_penalty: Option<i32>,
    pub stop: Option<Vec<String>>,
}

impl Default for GptConfigBuilder {
    fn default() -> (r: Self)
        ensures
            r.is_empty(),
    {
        GptConfigBuilder {
            temperature: None,
            max_tokens: None,
            top_p: None,
            frequency_penalty: None,
            presence_penalty: None,
            stop: None,
        }
    }
}

/// The value that `build` takes for a field: the one set, else the default.
pub open spec fn or_default<T>(v: Option<T>, d: T) -> T {
    match v {
        Some(x) => x,
        None => d,
    }
}

impl GptConfigBuilder {
    pub open spec fn is_empty(&self) -> bool {
        &&& self.temperature is None
        &&& self.max_tokens is None
        &&& self.top_p is None
        &&& self.frequency_penalty is None
        &&& self.presence_penalty is None
        &&& self.stop is None
    }

    /// Sets the temperature (thousandths), saturated into `[0, 2000]`.
    pub fn temperature(self, temp: i32) -> (r: Self)
        ensures
            r.temperature == Some(
                clamped(temp as int, TEMPERATURE_MIN as int, TEMPERATURE_MAX as int) as i32,
            ),
            r.max_tokens == self.max_tokens,
            r.top_p == self.top_p,
            r.frequency_penalty == self.frequency_penalty,
            r.presence_penalty == self.presence_penalty,
            r.stop == self.stop,
    {
        GptConfigBuilder {
            temperature: Some(clamp_i32(temp, TEMPERATURE_MIN, TEMPERATURE_MAX)),
            ..self
        }
    }

    /// Sets the token limit, raised to 1 if it is 0.
    pub fn max_tokens(self, tokens: u32) -> (r: Self)
        ensures
            r.max_tokens == Some(if tokens < MAX_TOKENS_MIN { MAX_TOKENS_MIN } else { tokens }),
            r.temperature == self.temperature,
            r.top_p == self.top_p,
            r.frequency_penalty == self.frequency_penalty,
            r.presence_penalty == self.presence_penalty,
            r.stop == self.stop,
    {
        let t = if tokens < MAX_TOKENS_MIN {
            MAX_TOKENS_MIN
        } else {
            tokens
        };
        GptConfigBuilder { max_tokens: Some(t), ..self }
    }

    /// Sets the nucleus-sampling mass (thousandths), saturated into `[0, 1000]`.
    pub fn top_p(self, top_p: i32) -> (r: Self)
        ensures
            r.top_p == Some(clamped(top_p as int, TOP_P_MIN as int, TOP_P_MAX as int) as i32),
            r.temperature == self.temperature,
            r.max_tokens == self.max_tokens,
            r.frequency_penalty == self.frequency_penalty,
            r.presence_penalty == self.presence_penalty,
            r.stop == self.stop,
    {
        GptConfigBuilder { top_p: Some(clamp_i32(top_p, TOP_P_MIN, TOP_P_MAX)), ..self }
    }

    /// Sets the frequency penalty (thousandths), saturated into `[-2000, 2000]`.
    pub fn frequency_penalty(self, penalty: i32) -> (r: Self)
        ensures
            r.frequency_penalty == Some(
                clamped(penalty as int, PENALTY_MIN as int, PENALTY_MAX as int) as i32,
            ),
            r.temperature == self.temperature,
            r.max_tokens == self.max_tokens,
            r.top_p == self.top_p,
            r.presence_penalty == self.presence_penalty,
            r.stop == self.stop,
    {
        GptConfigBuilder {
            frequency_penalty: Some(clamp_i32(penalty, PENALTY_MIN, PENALTY_MAX)),
            ..self
        }
    }

    /// Sets the presence penalty (thousandths), saturated into `[-2000, 2000]`.
    pub fn presence_penalty(self, penalty: i32) -> (r: Self)
        ensures
            r.presence_penalty == Some(
                clamped(penalty as int, PENALTY_MIN as int, PENALTY_MAX as int) as i32,
            ),
            r.temperature == self.temperature,
            r.max_tokens == self.max_tokens,
            r.top_p == self.top_p,
            r.frequency_penalty == self.frequency_penalty,
            r.stop == self.stop,
    {
        GptConfigBuilder {
            presence_penalty: Some(clamp_i32(penalty, PENALTY_MIN, PENALTY_MAX)),
            ..self
        }
    }

    /// Sets the stop sequences, kept in the given order.
    pub fn stop(self, stop: Vec<String>) -> (r: Self)
        ensures
            r.stop == Some(stop),
            r.temperature == self.temperature,
            r.max_tokens == self.max_tokens,
            r.top_p == self.top_p,
            r.frequency_penalty == self.frequency_penalty,
            r.presence_penalty == self.presence_penalty,
    {
        GptConfigBuilder { stop: Some(stop), ..self }
    }

    /// Fills every unset field with its default. Set values are clamped once
    /// more, so that the result is in range however the builder was filled.
    pub fn build(self) -> (r: GptConfig)
        ensures
            r.wf(),
            r.temperature == clamped(
                or_default(self.temperature, DEFAULT_TEMPERATURE) as int,
                TEMPERATURE_MIN as int,
                TEMPERATURE_MAX as int,
            ),
            r.max_tokens == (if or_default(self.max_tokens, DEFAULT_MAX_TOKENS) < MAX_TOKENS_MIN {
                MAX_TOKENS_MIN
            } else {
                or_default(self.max_tokens, DEFAULT_MAX_TOKENS)
            }),
            r.top_p == clamped(
                or_default(self.top_p, DEFAULT_TOP_P) as int,
                TOP_P_MIN as int,
                TOP_P_MAX as int,
            ),
            r.frequency_penalty == clamped(
                or_default(self.frequency_penalty, DEFAULT_FREQUENCY_PENALTY) as int,
                PENALTY_MIN as int,
                PENALTY_MAX as int,
            ),
            r.presence_penalty == clamped(
                or_default(self.presence_penalty, DEFAULT_PRESENCE_PENALTY) as int,
                PENALTY_MIN as int,
                PENALTY_MAX as int,
            ),
            r.stop == self.stop,
            self.is_empty() ==> r.is_default(),
    {
        let temperature = match self.temperature {
            Some(t) => t,
            None => DEFAULT_TEMPERATURE,
        };
        let max_tokens = match self.max_tokens {
            Some(t) => t,
            None => DEFAULT_MAX_TOKENS,
        };
        let top_p = match self.top_p {
            Some(t) => t,
            None => DEFAULT_TOP_P,
        };
        let frequency_penalty = match self.frequency_penalty {
            Some(t) => t,
            None => DEFAULT_FREQUENCY_PENALTY,
        };
        let presence_penalty = match self.presence_penalty {
            Some(t) => t,
            None => DEFAULT_PRESENCE_PENALTY,
        };
        GptConfig {
            temperature: clamp_i32(temperature, TEMPERATURE_MIN, TEMPERATURE_MAX),
            max_tokens: if max_tokens < MAX_TOKENS_MIN {
                MAX_TOKENS_MIN
            } else {
                max_tokens
            },
            top_p: clamp_i32(top_p, TOP_P_MIN, TOP_P_MAX),
            frequency_penalty: clamp_i32(frequency_penalty, PENALTY_MIN, PENALTY_MAX),
            presence_penalty: clamp_i32(presence_penalty, PENALTY_MIN, PENALTY_MAX),
            stop: self.stop,
        }
    }
}

} // verus!
