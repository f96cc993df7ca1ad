//! The rate-limit policy: how many tokens per period, with what burst.

use crate::duration::duration_secs;
use std::time::Duration;
use vstd::prelude::*;

verus! {

/// A token-bucket policy as the store understands it.
///
/// A policy is a plain value: the modifiers take it by value and give a new
/// one back.
#[derive(Clone, Copy, Debug)]
#[non_exhaustive]
pub struct Policy {
    /// How many requests beyond the sustained rate may pass at once.
    pub burst: usize,
    /// The sustained number of tokens per `period`.
    pub tokens: usize,
    /// The window over which `tokens` are granted.
    pub period: Duration,
    /// The number of tokens that one request costs.
    pub apply: usize,
    /// A label for logs and traces.
    pub name: Option<&'static str>,
}

impl Policy {
    /// Whether the store can enforce this policy: it grants at least one
    /// token, over at least one second, and a request costs at least one.
    pub open spec fn well_formed(self) -> bool {
        &&& self.tokens > 0
        &&& duration_secs(self.period) >= 1
        &&& self.apply > 0
    }

    /// A policy of exactly these parts. It is well formed if the parts
    /// are: no part is turned down here.
    pub fn new(
        burst: usize,
        tokens: usize,
        period: Duration,
        apply: usize,
        name: Option<&'static str>,
    ) -> (policy: Policy)
        ensures
            policy == (Policy { burst, tokens, period, apply, name }),
            policy.well_formed() <==> tokens > 0 && duration_secs(period) >= 1 && apply > 0,
    {
        Policy { burst, tokens, period, apply, name }
    }

    /// A policy of `tokens` per `period`, without burst, at a cost of one
    /// token per request.
    pub fn from_tokens_per_period(tokens: usize, period: Duration) -> (policy: Policy)
        ensures
            policy == (Policy { burst: 0, tokens, period, apply: 1, name: None }),
            policy.well_formed() <==> tokens > 0 && duration_secs(period) >= 1,
    {
        Policy::new(0, tokens, period, 1, None)
    }

    /// A policy of `tokens` per second, without burst, at a cost of one
    /// token per request. It is well formed if it grants any token.
    pub fn from_tokens_per_second(tokens: usize) -> (policy: Policy)
        ensures
            policy.burst == 0,
            policy.tokens == tokens,
            duration_secs(policy.period) == 1,
            policy.apply == 1,
            policy.name is None,
            policy.well_formed() <==> tokens > 0,
    {
        Policy::from_tokens_per_period(tokens, Duration::from_secs(1))
    }

    /// A policy of `tokens` per minute, without burst, at a cost of one
    /// token per request. It is well formed if it grants any token.
    pub fn from_tokens_per_minute(tokens: usize) -> (policy: Policy)
        ensures
            policy.burst == 0,
            policy.tokens == tokens,
            duration_secs(policy.period) == 60,
            policy.apply == 1,
            policy.name is None,
            policy.well_formed() <==> tokens > 0,
    {
        Policy::from_tokens_per_period(tokens, Duration::from_secs(60))
    }

    /// A policy of `tokens` per hour, without burst, at a cost of one token
    /// per request. It is well formed if it grants any token.
    pub fn from_tokens_per_hour(tokens: usize) -> (policy: Policy)
        ensures
            policy.burst == 0,
            policy.tokens == tokens,
            duration_secs(policy.period) == 3600,
            policy.apply == 1,
            policy.name is None,
            policy.well_formed() <==> tokens > 0,
    {
        Policy::from_tokens_per_period(tokens, Duration::from_secs(60 * 60))
    }

    /// A policy of `tokens` per day, without burst, at a cost of one token
    /// per request. It is well formed if it grants any token.
    pub fn from_tokens_per_day(tokens: usize) -> (policy: Policy)
        ensures
            policy.burst == 0,
            policy.tokens == tokens,
            duration_secs(policy.period) == 86400,
            policy.apply == 1,
            policy.name is None,
            policy.well_formed() <==> tokens > 0,
    {
        Policy::from_tokens_per_period(tokens, Duration::from_secs(60 * 60 * 24))
    }

    /// The same policy with another burst. Any burst keeps a well-formed
    /// policy well formed.
    pub fn max_burst(self, burst: usize) -> (policy: Policy)
        ensures
            policy == (Policy { burst, ..self }),
            policy.well_formed() == self.well_formed(),
    {
        let mut policy = self;
        policy.burst = burst;
        policy
    }

    /// The same policy with another cost per request. A cost of at least
    /// one keeps a well-formed policy well formed.
    pub fn apply_tokens(self, apply: usize) -> (policy: Policy)
        ensures
            policy == (Policy { apply, ..self }),
            self.well_formed() && apply > 0 ==> policy.well_formed(),
    {
        let mut policy = self;
        policy.apply = apply;
        policy
    }

    /// The same policy under a name.
    pub fn name(self, name: &'static str) -> (policy: Policy)
        ensures
            policy == (Policy { name: Some(name), ..self }),
            policy.well_formed() == self.well_formed(),
    {
        let mut policy = self;
        policy.name = Some(name);
        policy
    }
}

} // verus!
