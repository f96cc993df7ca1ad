//! Key extraction: the plainest way to tell requests apart.

use std::borrow::Cow;
use vstd::prelude::*;
use vstd::std_specs::convert::FromSpecImpl;
use vstd::string::StringExecFns;

verus! {

/// Why no key could be made out of a request.
#[derive(Debug, Clone)]
#[non_exhaustive]
pub struct ExtractKeyError {
    pub detail: Option<Cow<'static, str>>,
}

impl Default for ExtractKeyError {
    fn default() -> (error: Self)
        ensures
            error.detail is None,
    {
        ExtractKeyError { detail: None }
    }
}

impl ExtractKeyError {
    /// An error that says what went wrong.
    pub fn with_detail(detail: Cow<'static, str>) -> (error: Self)
        ensures
            error.detail == Some(detail),
    {
        ExtractKeyError { detail: Some(detail) }
    }

    /// The error's message: a fixed opening, then the detail if there is
    /// one.
    pub open spec fn message(self) -> Seq<char> {
        match self.detail {
            Some(detail) => "failed to extract key"@ + ": "@ + detail@,
            None => "failed to extract key"@,
        }
    }

    /// The error's message as text.
    pub fn to_string(&self) -> (text: String)
        ensures
            text@ == self.message(),
    {
        let mut text = String::from_str("failed to extract key");
        match &self.detail {
            Some(detail) => {
                text.append(": ");
                match detail {
                    Cow::Borrowed(borrowed) => text.append(borrowed),
                    Cow::Owned(owned) => text.append(owned.as_str()),
                }
            },
            None => {},
        }
        text
    }
}

impl From<String> for ExtractKeyError {
    fn from(value: String) -> (error: Self) {
        ExtractKeyError::with_detail(Cow::Owned(value))
    }
}

impl FromSpecImpl<String> for ExtractKeyError {
    open spec fn obeys_from_spec() -> bool {
        true
    }

    open spec fn from_spec(value: String) -> Self {
        ExtractKeyError { detail: Some(Cow::Owned(value)) }
    }
}

impl From<&'static str> for ExtractKeyError {
    fn from(value: &'static str) -> (error: Self) {
        ExtractKeyError::with_detail(Cow::Borrowed(value))
    }
}

impl FromSpecImpl<&'static str> for ExtractKeyError {
    open spec fn obeys_from_spec() -> bool {
        true
    }

    open spec fn from_spec(value: &'static str) -> Self {
        ExtractKeyError { detail: Some(Cow::Borrowed(value)) }
    }
}

/// Makes the key out of a request, where one policy holds for all of them.
pub trait ExtractKey<R> {
    /// Why no key could be made out.
    type Error;

    /// The key of the request, borrowed from it where that is possible.
    fn extract<'a>(&self, req: &'a R) -> Result<Cow<'a, str>, Self::Error>;
}

} // verus!
