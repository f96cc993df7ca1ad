//! What can go wrong on the way to a verdict.

use crate::decimal::{decimal_text, i64_to_string, u64_to_string};
use crate::key::Key;
use crate::rule::RequestBlockedDetails;
use crate::verdict::ProtocolViolation;
use crate::wire::{pool_error_text, redis_error_text};
use std::borrow::Cow;
use vstd::prelude::*;
use vstd::std_specs::convert::{FromSpecImpl, IntoSpec};
use vstd::string::StringExecFns;

verus! {

/// Why a rule provider could not tell the rule of a request.
#[derive(Debug, Clone)]
#[non_exhaustive]
pub struct ProvideRuleError<'a> {
    pub detail: Option<Cow<'a, str>>,
    /// The key that the provider had made out, if it got that far.
    pub key: Option<Key<'a>>,
}

impl<'a> Default for ProvideRuleError<'a> {
    fn default() -> (error: Self)
        ensures
            error.detail is None,
            error.key is None,
    {
        ProvideRuleError { detail: None, key: None }
    }
}

impl<'a> ProvideRuleError<'a> {
    /// An error that names both the key and what went wrong.
    pub fn new<K, D>(key: K, detail: D) -> (error: Self) where
        K: Into<Key<'a>>,
        D: Into<Cow<'a, str>>,

        ensures
            error.key matches Some(made) && call_ensures(K::into, (key,), made),
            K::obeys_into_spec() ==> error.key == Some(key.into_spec()),
            error.detail matches Some(made) && call_ensures(D::into, (detail,), made),
            D::obeys_into_spec() ==> error.detail == Some(detail.into_spec()),
    {
        ProvideRuleError { detail: Some(detail.into()), key: Some(key.into()) }
    }

    /// The same error with its detail set.
    pub fn detail<D>(self, detail: D) -> (error: Self) where D: Into<Cow<'a, str>>
        ensures
            error.key == self.key,
            error.detail matches Some(made) && call_ensures(D::into, (detail,), made),
            D::obeys_into_spec() ==> error.detail == Some(detail.into_spec()),
    {
        let mut error = self;
        error.detail = Some(detail.into());
        error
    }

    /// The same error with its key set.
    pub fn key<K>(self, key: K) -> (error: Self) where K: Into<Key<'a>>
        ensures
            error.detail == self.detail,
            error.key matches Some(made) && call_ensures(K::into, (key,), made),
            K::obeys_into_spec() ==> error.key == Some(key.into_spec()),
    {
        let mut error = self;
        error.key = Some(key.into());
        error
    }

    /// The error's message: a fixed opening, then the detail if there is
    /// one.
    pub open spec fn message(self) -> Seq<char> {
        match self.detail {
            Some(detail) => "failed to provide rule"@ + ": "@ + detail@,
            None => "failed to provide rule"@,
        }
    }

    /// The error's message as text.
    pub fn to_string(&self) -> (text: String)
        ensures
            text@ == self.message(),
    {
        let mut text = String::from_str("failed to provide rule");
        match &self.detail {
            Some(detail) => {
                text.append(": ");
                match detail {
                    Cow::Borrowed(borrowed) => text.append(borrowed),
                    Cow::Owned(owned) => text.append(owned.as_str()),
                }
            },
            None => {},
        }
        text
    }
}

impl<'a> From<String> for ProvideRuleError<'a> {
    fn from(value: String) -> (error: Self) {
        ProvideRuleError { detail: Some(Cow::Owned(value)), key: None }
    }
}

impl<'a> FromSpecImpl<String> for ProvideRuleError<'a> {
    open spec fn obeys_from_spec() -> bool {
        true
    }

    open spec fn from_spec(value: String) -> Self {
        ProvideRuleError { detail: Some(Cow::Owned(value)), key: None }
    }
}

impl<'a> From<&'a str> for ProvideRuleError<'a> {
    fn from(value: &'a str) -> (error: Self) {
        ProvideRuleError { detail: Some(Cow::Borrowed(value)), key: None }
    }
}

impl<'a> FromSpecImpl<&'a str> for ProvideRuleError<'a> {
    open spec fn obeys_from_spec() -> bool {
        true
    }

    open spec fn from_spec(value: &'a str) -> Self {
        ProvideRuleError { detail: Some(Cow::Borrowed(value)), key: None }
    }
}

impl ProtocolViolation {
    /// The violation's message.
    pub open spec fn message(self) -> Seq<char> {
        match self {
            ProtocolViolation::NotAnArray => "the store's reply is not an array"@,
            ProtocolViolation::WrongArity { found } => "the store's reply holds "@ + decimal_text(
                found as int,
            ) + " element(s) where 5 are due"@,
            ProtocolViolation::NotAnInteger { index } => "element "@ + decimal_text(index as int)
                + " of the store's reply is not an integer"@,
        }
    }

    /// The violation's message as text.
    pub fn to_string(&self) -> (text: String)
        ensures
            text@ == self.message(),
    {
        match self {
            ProtocolViolation::NotAnArray => String::from_str("the store's reply is not an array"),
            ProtocolViolation::WrongArity { found } => {
                let mut text = String::from_str("the store's reply holds ");
                text.append(u64_to_string(*found as u64).as_str());
                text.append(" element(s) where 5 are due");
                text
            },
            ProtocolViolation::NotAnInteger { index } => {
                let mut text = String::from_str("element ");
                text.append(u64_to_string(*index as u64).as_str());
                text.append(" of the store's reply is not an integer");
                text
            },
        }
    }
}

/// What can end a request before the guarded service sees it.
#[derive(Debug)]
#[non_exhaustive]
pub enum Error<'a> {
    /// No rule could be told for the request.
    ProvideRule(ProvideRuleError<'a>),
    /// The store could not be reached, or the round trip failed.
    Redis(redis::RedisError),
    /// No connection could be had from the pool.
    Deadpool(deadpool_redis::PoolError),
    /// The store's reply was not the five integers it owes.
    Protocol(ProtocolViolation),
    /// The store turned the request down.
    RateLimit(RequestBlockedDetails<'a>),
}

impl<'a> Error<'a> {
    /// The error's message, where the library words it itself: the errors
    /// of the store's client and of the pool speak for themselves.
    pub open spec fn message(self) -> Option<Seq<char>> {
        match self {
            Error::ProvideRule(error) => Some("rule: "@ + error.message()),
            Error::Redis(_) => None,
            Error::Deadpool(_) => None,
            Error::Protocol(violation) => Some(violation.message()),
            Error::RateLimit(blocked) => Some(
                "request blocked for key "@ + blocked.rule.key.text()
                    + " and can be retried after "@ + decimal_text(
                    blocked.details.retry_after as int,
                ) + " second(s)"@,
            ),
        }
    }

    /// The error's message as text.
    pub fn to_string(&self) -> (text: String)
        ensures
            self.message() matches Some(message) ==> text@ == message,
    {
        match self {
            Error::ProvideRule(error) => {
                let mut text = String::from_str("rule: ");
                text.append(error.to_string().as_str());
                text
            },
            Error::Redis(error) => redis_error_text(error),
            Error::Deadpool(error) => pool_error_text(error),
            Error::Protocol(violation) => violation.to_string(),
            Error::RateLimit(blocked) => {
                let mut text = String::from_str("request blocked for key ");
                text.append(blocked.rule.key.to_string().as_str());
                text.append(" and can be retried after ");
                text.append(i64_to_string(blocked.details.retry_after).as_str());
                text.append(" second(s)");
                text
            },
        }
    }
}

impl<'a> From<redis::RedisError> for Error<'a> {
    fn from(error: redis::RedisError) -> (wrapped: Self) {
        Error::Redis(error)
    }
}

impl<'a> FromSpecImpl<redis::RedisError> for Error<'a> {
    open spec fn obeys_from_spec() -> bool {
        true
    }

    open spec fn from_spec(error: redis::RedisError) -> Self {
        Error::Redis(error)
    }
}

impl<'a> From<deadpool_redis::PoolError> for Error<'a> {
    fn from(error: deadpool_redis::PoolError) -> (wrapped: Self) {
        Error::Deadpool(error)
    }
}

impl<'a> FromSpecImpl<deadpool_redis::PoolError> for Error<'a> {
    open spec fn obeys_from_spec() -> bool {
        true
    }

    open spec fn from_spec(error: deadpool_redis::PoolError) -> Self {
        Error::Deadpool(error)
    }
}

} // verus!
