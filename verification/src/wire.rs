//! What the library knows of the `redis` client's types.
//!
//! A `redis::Cmd` stands here for its argument list, a `redis::Value` for
//! its variant and what that variant holds. Everything the codec proves
//! about a command or a reply rests on the contracts in this file, which are
//! believed, not proved.

use crate::decimal::{decimal, signed_decimal};
use crate::key::uuid_bytes;
use vstd::prelude::*;
use vstd::utf8::encode_utf8;

verus! {

/// `redis::Cmd`, known here by its argument list alone.
#[verifier::external_type_specification]
#[verifier::external_body]
pub struct ExCmd(redis::Cmd);

/// The arguments of a command in the order in which they were added, the
/// command's name first, each as the bytes that go on the wire.
pub uninterp spec fn cmd_args(cmd: redis::Cmd) -> Seq<Seq<u8>>;

/// `Cmd::new` is trusted to make a command without arguments.
pub assume_specification[ redis::Cmd::new ]() -> (cmd: redis::Cmd)
    ensures
        cmd_args(cmd) == Seq::<Seq<u8>>::empty(),
;

/// `Cmd::arg` with a string slice. It is trusted to add one argument, the
/// UTF-8 bytes of the string.
#[verifier::external_body]
pub(crate) fn arg_str(cmd: &mut redis::Cmd, value: &str)
    ensures
        cmd_args(*final(cmd)) == cmd_args(*old(cmd)).push(encode_utf8(value@)),
{
    cmd.arg(value);
}

/// `Cmd::arg` with an unsigned integer. It is trusted to add one argument,
/// the number in decimal.
#[verifier::external_body]
pub(crate) fn arg_u64(cmd: &mut redis::Cmd, value: u64)
    ensures
        cmd_args(*final(cmd)) == cmd_args(*old(cmd)).push(decimal(value as nat)),
{
    cmd.arg(value);
}

/// `Cmd::arg` with a signed integer. It is trusted to add one argument, the
/// number in decimal, with a minus sign if it is negative.
#[verifier::external_body]
pub(crate) fn arg_i64(cmd: &mut redis::Cmd, value: i64)
    ensures
        cmd_args(*final(cmd)) == cmd_args(*old(cmd)).push(signed_decimal(value as int)),
{
    cmd.arg(value);
}

/// `Cmd::arg` with a UUID. It is trusted to add one argument, the sixteen
/// bytes of the identifier as they are, not their text.
#[verifier::external_body]
pub(crate) fn arg_uuid(cmd: &mut redis::Cmd, value: &uuid::Uuid)
    ensures
        cmd_args(*final(cmd)) == cmd_args(*old(cmd)).push(uuid_bytes(*value)),
{
    cmd.arg(value);
}

/// `redis::Value`, known here by its elements where it is an array and by
/// its number where it is an integer.
#[verifier::external_type_specification]
#[verifier::external_body]
pub struct ExValue(redis::Value);

/// `redis::RedisError`, carried through as it is.
#[verifier::external_type_specification]
#[verifier::external_body]
pub struct ExRedisError(redis::RedisError);

/// `deadpool`'s `PoolError`, carried through as it is.
#[verifier::external_type_specification]
#[verifier::external_body]
#[verifier::reject_recursive_types(E)]
pub struct ExPoolError<E>(deadpool::managed::PoolError<E>);

/// The elements of a value that is an `Array`, in order; `None` for every
/// other variant.
pub uninterp spec fn value_elements(value: redis::Value) -> Option<Seq<redis::Value>>;

/// The number in a value that is an `Int`; `None` for every other variant.
pub uninterp spec fn value_integer(value: redis::Value) -> Option<i64>;

/// A value as far as a verdict depends on it: the elements of an array,
/// each as its integer if it is one.
pub open spec fn value_shape(value: redis::Value) -> Option<Seq<Option<i64>>> {
    match value_elements(value) {
        Some(elements) => Some(elements.map_values(|element: redis::Value| value_integer(element))),
        None => None,
    }
}

/// Tells `Value::Array` from the other variants of `redis::Value` and hands
/// its elements out. That these are the value's elements, and that no other
/// variant has any, is believed.
#[verifier::external_body]
pub(crate) fn elements_of(value: &redis::Value) -> (elements: Option<&[redis::Value]>)
    ensures
        match elements {
            Some(slice) => value_elements(*value) == Some(slice@),
            None => value_elements(*value) is None,
        },
{
    match value {
        redis::Value::Array(items) => Some(items.as_slice()),
        _ => None,
    }
}

/// Tells `Value::Int` from the other variants of `redis::Value` and hands
/// its number out. That this is the value's number, and that no other
/// variant has one, is believed.
#[verifier::external_body]
pub(crate) fn integer_of(value: &redis::Value) -> (number: Option<i64>)
    ensures
        number == value_integer(*value),
{
    match value {
        redis::Value::Int(number) => Some(*number),
        _ => None,
    }
}

/// `RedisError`'s `Display`, through `to_string`. Nothing is claimed of the
/// text.
#[verifier::external_body]
pub(crate) fn redis_error_text(error: &redis::RedisError) -> (text: String) {
    error.to_string()
}

/// `PoolError`'s `Display`, through `to_string`. Nothing is claimed of the
/// text.
#[verifier::external_body]
pub(crate) fn pool_error_text(error: &deadpool_redis::PoolError) -> (text: String) {
    error.to_string()
}

} // verus!
