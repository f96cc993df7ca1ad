//! The key under which requests are counted.

use crate::decimal::{ascii_text, decimal, i64_to_string, signed_decimal, u64_to_string};
use vstd::prelude::*;
use vstd::std_specs::convert::FromSpecImpl;
use vstd::utf8::encode_utf8;

verus! {

/// `uuid::Uuid`, known here by its sixteen bytes alone.
#[verifier::external_type_specification]
#[verifier::external_body]
pub struct ExUuid(uuid::Uuid);

/// The sixteen bytes of a UUID, in the order in which it stores them.
pub uninterp spec fn uuid_bytes(id: uuid::Uuid) -> Seq<u8>;

/// `Uuid` is `Copy`: its `clone` is trusted to return the same identifier.
pub assume_specification[ <uuid::Uuid as Clone>::clone ](id: &uuid::Uuid) -> (copy: uuid::Uuid)
    ensures
        copy == *id,
;

/// The lower-case hexadecimal digit of a value below sixteen.
pub open spec fn hex_digit(nibble: nat) -> char
    recommends
        nibble < 16,
{
    if nibble < 10 {
        ((48 + nibble) as u8) as char
    } else {
        ((87 + nibble) as u8) as char
    }
}

/// Two lower-case hexadecimal digits for each byte.
pub open spec fn hex_text(bytes: Seq<u8>) -> Seq<char>
    decreases bytes.len(),
{
    if bytes.len() == 0 {
        Seq::empty()
    } else {
        hex_text(bytes.drop_last()).push(hex_digit((bytes.last() / 16) as nat)).push(
            hex_digit((bytes.last() % 16) as nat),
        )
    }
}

/// The hyphenated form of sixteen bytes: groups of 8, 4, 4, 4 and 12
/// hexadecimal digits.
pub open spec fn hyphenated(bytes: Seq<u8>) -> Seq<char>
    recommends
        bytes.len() == 16,
{
    hex_text(bytes.subrange(0, 4)) + seq!['-'] + hex_text(bytes.subrange(4, 6)) + seq!['-']
        + hex_text(bytes.subrange(6, 8)) + seq!['-'] + hex_text(bytes.subrange(8, 10)) + seq!['-']
        + hex_text(bytes.subrange(10, 16))
}

/// `Uuid`'s `Display`, through `to_string`. It is trusted to write the
/// sixteen bytes in lower-case hyphenated form.
#[verifier::external_body]
fn uuid_to_string(id: &uuid::Uuid) -> (text: String)
    ensures
        text@ == hyphenated(uuid_bytes(*id)),
{
    id.to_string()
}

/// What identifies the party that a limit applies to: an API key, a user
/// id, an address.
#[derive(Debug, Clone)]
#[non_exhaustive]
pub enum Key<'a> {
    /// Text that the key owns.
    String(String),
    /// Text that the key borrows, mostly from the request.
    Str(&'a str),
    /// An unsigned number, such as a user id.
    Usize(usize),
    /// A signed number.
    Isize(isize),
    /// A UUID. It goes to the store as its sixteen bytes, and into messages
    /// in its hyphenated form.
    Uuid(uuid::Uuid),
}

impl<'a> Key<'a> {
    /// The bytes that stand for the key in a command to the store.
    pub open spec fn wire(self) -> Seq<u8> {
        match self {
            Key::String(value) => encode_utf8(value@),
            Key::Str(value) => encode_utf8(value@),
            Key::Usize(value) => decimal(value as nat),
            Key::Isize(value) => signed_decimal(value as int),
            Key::Uuid(value) => uuid_bytes(value),
        }
    }

    /// The key as it is shown in messages.
    pub open spec fn text(self) -> Seq<char> {
        match self {
            Key::String(value) => value@,
            Key::Str(value) => value@,
            Key::Usize(value) => ascii_text(decimal(value as nat)),
            Key::Isize(value) => ascii_text(signed_decimal(value as int)),
            Key::Uuid(value) => hyphenated(uuid_bytes(value)),
        }
    }

    /// The key as text.
    pub fn to_string(&self) -> (text: String)
        ensures
            text@ == self.text(),
    {
        match self {
            Key::String(value) => value.clone(),
            Key::Str(value) => (*value).to_owned(),
            Key::Usize(value) => u64_to_string(*value as u64),
            Key::Isize(value) => i64_to_string(*value as i64),
            Key::Uuid(value) => uuid_to_string(value),
        }
    }
}

impl<'a> From<&'a str> for Key<'a> {
    fn from(value: &'a str) -> (key: Self) {
        Key::Str(value)
    }
}

impl<'a> FromSpecImpl<&'a str> for Key<'a> {
    open spec fn obeys_from_spec() -> bool {
        true
    }

    open spec fn from_spec(value: &'a str) -> Self {
        Key::Str(value)
    }
}

impl<'a> From<String> for Key<'a> {
    fn from(value: String) -> (key: Self) {
        Key::String(value)
    }
}

impl<'a> FromSpecImpl<String> for Key<'a> {
    open spec fn obeys_from_spec() -> bool {
        true
    }

    open spec fn from_spec(value: String) -> Self {
        Key::String(value)
    }
}

} // verus!
