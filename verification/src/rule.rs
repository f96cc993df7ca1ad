//! The rule that a request falls under, and who decides it.

use crate::error::ProvideRuleError;
use crate::key::Key;
use crate::policy::Policy;
use crate::verdict::{AllowedDetails, BlockedDetails};
use vstd::prelude::*;
use vstd::std_specs::convert::IntoSpec;

verus! {

/// What to count a request under, and the policy to hold it to.
#[derive(Debug, Clone)]
#[non_exhaustive]
pub struct Rule<'a> {
    pub key: Key<'a>,
    pub policy: Policy,
    /// The resource that the request asks for, for logs and traces.
    pub resource: Option<&'static str>,
}

impl<'a> Rule<'a> {
    /// The rule that holds `key` to `policy`, with no resource named. The
    /// key is what `key` converts into.
    pub fn new<K>(key: K, policy: Policy) -> (rule: Self) where K: Into<Key<'a>>
        ensures
            call_ensures(K::into, (key,), rule.key),
            K::obeys_into_spec() ==> rule.key == key.into_spec(),
            rule.policy == policy,
            rule.resource is None,
    {
        Rule { key: key.into(), policy, resource: None }
    }

    /// The same rule with the resource named.
    pub fn resource(self, resource_name: &'static str) -> (rule: Self)
        ensures
            rule.key == self.key,
            rule.policy == self.policy,
            rule.resource == Some(resource_name),
    {
        let mut rule = self;
        rule.resource = Some(resource_name);
        rule
    }
}

/// What a rule provider answers: the rule to enforce, `None` to let the
/// request through unchecked, or why no rule could be told.
pub type ProvideRuleResult<'a> = Result<Option<Rule<'a>>, ProvideRuleError<'a>>;

/// Decides, from the request alone, which rule it falls under.
pub trait ProvideRule<R> {
    /// The rule of the request: `Ok(None)` where the request is not to be
    /// limited, an error where no rule can be told. The answer depends on the
    /// request alone.
    fn provide<'a>(&self, req: &'a R) -> ProvideRuleResult<'a>;
}

/// A blocked verdict together with the rule that led to it.
#[derive(Debug, Clone)]
#[non_exhaustive]
pub struct RequestBlockedDetails<'a> {
    pub details: BlockedDetails,
    pub rule: Rule<'a>,
}

/// An allowed verdict together with what is left of the rule once the
/// request has gone on.
#[derive(Debug, Clone)]
#[non_exhaustive]
pub struct RequestAllowedDetails {
    pub details: AllowedDetails,
    pub policy: Policy,
    pub resource: Option<&'static str>,
}

} // verus!
