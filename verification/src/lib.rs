//! Rate limiting for request pipelines, decided by a store that runs the
//! Redis Cell module.
//!
//! The crate holds the decisions of the middleware and leaves the waiting to
//! its caller:
//!
//! - [`Key`], [`Policy`] and [`Rule`] say what to count a request under and
//!   what to hold it to;
//! - [`command`] turns a key and a policy into the `CL.THROTTLE` command,
//!   argument by argument, and [`verdict`] reads the store's five integers
//!   back into a [`Verdict`];
//! - [`pipeline`] is the state machine of one request: a step takes what
//!   happened and says what is to be done next, so that a blocked request
//!   never reaches the guarded service and a request without a rule never
//!   reaches the store;
//! - [`RateLimitConfig`] holds the rule provider and the handlers that make
//!   and shape the responses, [`RateLimitLayer`] and [`RateLimit`] bind a
//!   configuration to a connection and to the services that it guards.
//!
//! A driver asks [`RateLimitConfig::start`] for the first step, sends the
//! command that it may hand out, reports the store's answer to [`advance`],
//! and then either answers with [`RateLimitConfig::dispatch_error`] or calls
//! the guarded service and passes its response through
//! [`RateLimitConfig::complete`].

pub mod command;
pub mod config;
pub mod decimal;
pub mod duration;
pub mod error;
pub mod extract;
pub mod key;
pub mod pipeline;
pub mod policy;
pub mod rule;
pub mod service;
pub mod verdict;
pub mod wire;

pub use command::{RedisCellCommand, RedisCellCommandBuilder, ThrottleCmd};
pub use config::RateLimitConfig;
pub use error::{Error, ProvideRuleError};
pub use extract::{ExtractKey, ExtractKeyError};
pub use key::Key;
pub use pipeline::{advance, Action, Completion, Event, Stage};
pub use policy::Policy;
pub use rule::{
    ProvideRule, ProvideRuleResult, RequestAllowedDetails, RequestBlockedDetails, Rule,
};
pub use service::{RateLimit, RateLimitLayer};
pub use verdict::{AllowedDetails, BlockedDetails, ProtocolViolation, Reply, ReplyItem, Verdict};
