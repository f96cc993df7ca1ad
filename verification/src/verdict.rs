//! The store's reply to one check, and the verdict it carries.

use crate::wire::{elements_of, integer_of, value_integer, value_shape};
use vstd::prelude::*;
use vstd::std_specs::convert::TryFromSpecImpl;

verus! {

/// What the store granted when it let a request pass.
#[derive(Clone, Copy, Debug, PartialEq, Eq, Structural)]
pub struct AllowedDetails {
    /// The size of the bucket: the most requests that can pass at once.
    pub limit: i64,
    /// How many more requests can pass right now.
    pub remaining: i64,
    /// Seconds until the bucket is full again.
    pub reset_after: i64,
}

/// What the store reported when it turned a request down.
#[derive(Clone, Copy, Debug, PartialEq, Eq, Structural)]
pub struct BlockedDetails {
    /// Seconds after which the request can be tried again.
    pub retry_after: i64,
    /// Seconds until the bucket is full again.
    pub reset_after: i64,
}

/// The store's decision on one request.
#[derive(Clone, Copy, Debug, PartialEq, Eq, Structural)]
pub enum Verdict {
    /// The request may pass.
    Allowed(AllowedDetails),
    /// The request is over the limit.
    Blocked(BlockedDetails),
}

/// How a reply can fall short of the five integers that the store owes.
#[derive(Clone, Copy, Debug, PartialEq, Eq, Structural)]
pub enum ProtocolViolation {
    /// The reply is not an array.
    NotAnArray,
    /// The reply is an array, but not of five elements.
    WrongArity { found: usize },
    /// The element at `index` is the first that is not an integer.
    NotAnInteger { index: usize },
}

/// One element of a reply, as far as a verdict depends on it.
#[derive(Clone, Copy, Debug, PartialEq, Eq, Structural)]
pub enum ReplyItem {
    /// An integer, and its value.
    Integer(i64),
    /// Anything else: text, even where it spells a number, a nested array,
    /// nothing at all.
    NonInteger,
}

/// The store's reply, as far as a verdict depends on it.
#[derive(Clone, Debug, PartialEq, Eq)]
pub enum Reply {
    /// An array, and its elements in order.
    Array(Vec<ReplyItem>),
    /// Anything else.
    NonArray,
}

impl ReplyItem {
    /// The integer, if the element is one.
    pub open spec fn integer(self) -> Option<i64> {
        match self {
            ReplyItem::Integer(value) => Some(value),
            ReplyItem::NonInteger => None,
        }
    }
}

impl View for Reply {
    /// The elements of an array, each as its integer if it is one; `None`
    /// for what is no array.
    type V = Option<Seq<Option<i64>>>;

    open spec fn view(&self) -> Option<Seq<Option<i64>>> {
        match self {
            Reply::Array(items) => Some(items@.map_values(|item: ReplyItem| item.integer())),
            Reply::NonArray => None,
        }
    }
}

/// Whether a reply has the shape that the store promises: exactly five
/// elements, every one an integer.
pub open spec fn well_formed(reply: Option<Seq<Option<i64>>>) -> bool {
    &&& reply matches Some(items)
    &&& items.len() == 5
    &&& forall|i: int| 0 <= i < 5 ==> (#[trigger] items[i]) is Some
}

/// The index of the first of five elements that is no integer, if there is
/// one.
pub open spec fn first_non_integer(items: Seq<Option<i64>>) -> Option<usize>
    recommends
        items.len() == 5,
{
    if items[0] is None {
        Some(0)
    } else if items[1] is None {
        Some(1)
    } else if items[2] is None {
        Some(2)
    } else if items[3] is None {
        Some(3)
    } else if items[4] is None {
        Some(4)
    } else {
        None
    }
}

/// The integer at `index` of a well-formed reply.
pub open spec fn number(reply: Option<Seq<Option<i64>>>, index: int) -> i64
    recommends
        well_formed(reply),
        0 <= index < 5,
{
    reply->0[index]->0
}

/// The verdict in a well-formed reply.
///
/// The five integers are, in order: the blocked flag, the limit, the
/// remaining count, the seconds to wait before a retry (-1 where the request
/// passed) and the seconds until the bucket is full. A flag of 1 blocks;
/// any other lets the request pass, and the retry hint is then dropped.
pub open spec fn verdict_of(reply: Option<Seq<Option<i64>>>) -> Verdict
    recommends
        well_formed(reply),
{
    if number(reply, 0) == 1 {
        Verdict::Blocked(
            BlockedDetails { retry_after: number(reply, 3), reset_after: number(reply, 4) },
        )
    } else {
        Verdict::Allowed(
            AllowedDetails {
                limit: number(reply, 1),
                remaining: number(reply, 2),
                reset_after: number(reply, 4),
            },
        )
    }
}

/// What a reply means: the verdict in it, or the first way in which it
/// falls short of five integers.
pub open spec fn decoded(reply: Option<Seq<Option<i64>>>) -> Result<Verdict, ProtocolViolation> {
    match reply {
        None => Err(ProtocolViolation::NotAnArray),
        Some(items) => if items.len() != 5 {
            Err(ProtocolViolation::WrongArity { found: items.len() as usize })
        } else if first_non_integer(items) is Some {
            Err(ProtocolViolation::NotAnInteger { index: first_non_integer(items)->0 })
        } else {
            Ok(verdict_of(reply))
        },
    }
}

/// A well-formed reply is decided by its flag alone: a flag of 1 gives
/// `Blocked` and never `Allowed`; any other flag, 0 among them, gives
/// `Allowed` and never `Blocked`. Either way the details are the reply's own
/// integers.
pub proof fn lemma_flag_decides(reply: Option<Seq<Option<i64>>>)
    requires
        well_formed(reply),
    ensures
        decoded(reply) == Ok::<Verdict, ProtocolViolation>(verdict_of(reply)),
        number(reply, 0) == 1 ==> decoded(reply) == Ok::<Verdict, ProtocolViolation>(
            Verdict::Blocked(
                BlockedDetails { retry_after: number(reply, 3), reset_after: number(reply, 4) },
            ),
        ),
        number(reply, 0) != 1 ==> decoded(reply) == Ok::<Verdict, ProtocolViolation>(
            Verdict::Allowed(
                AllowedDetails {
                    limit: number(reply, 1),
                    remaining: number(reply, 2),
                    reset_after: number(reply, 4),
                },
            ),
        ),
{
}

/// A reply that is not well formed is a protocol violation, never a
/// verdict, and only such a reply is one: what is no array, an array of
/// another length than five, an array with an element that is no integer.
pub proof fn lemma_malformed_is_violation(reply: Option<Seq<Option<i64>>>)
    ensures
        !well_formed(reply) <==> decoded(reply) is Err,
        reply is None ==> decoded(reply) == Err::<Verdict, ProtocolViolation>(
            ProtocolViolation::NotAnArray,
        ),
        reply is Some && reply->0.len() != 5 ==> decoded(reply) is Err && decoded(reply)->Err_0
            is WrongArity,
        reply is Some && reply->0.len() == 5 && !well_formed(reply) ==> decoded(reply) is Err
            && decoded(reply)->Err_0 is NotAnInteger,
{
}

/// The index that a violation names is that of the first element that is no
/// integer: the element there is none, and every element before it is one.
pub proof fn lemma_violation_names_first_non_integer(items: Seq<Option<i64>>)
    requires
        items.len() == 5,
        decoded(Some(items)) is Err,
    ensures
        decoded(Some(items))->Err_0 matches ProtocolViolation::NotAnInteger { index },
        0 <= decoded(Some(items))->Err_0->index < 5,
        items[decoded(Some(items))->Err_0->index as int] is None,
        forall|i: int| 0 <= i < decoded(Some(items))->Err_0->index ==> (#[trigger] items[i]) is Some,
{
}

/// Decoding depends on the reply alone: the same elements give the same
/// verdict, however often they are decoded.
pub proof fn lemma_decoding_repeats(first: Reply, second: Reply)
    requires
        first@ == second@,
    ensures
        decoded(first@) == decoded(second@),
{
}

impl Reply {
    /// Reads a reply of the `redis` client: its elements if it is an array,
    /// each kept as an integer if it is one.
    pub fn from_value(value: &redis::Value) -> (reply: Reply)
        ensures
            reply@ == value_shape(*value),
    {
        match elements_of(value) {
            None => Reply::NonArray,
            Some(elements) => {
                let mut items: Vec<ReplyItem> = Vec::new();
                let mut index: usize = 0;
                while index < elements.len()
                    invariant
                        index <= elements@.len(),
                        items@.len() == index,
                        forall|i: int|
                            0 <= i < index ==> (#[trigger] items@[i]).integer() == value_integer(
                                elements@[i],
                            ),
                    decreases elements@.len() - index,
                {
                    let item = match integer_of(&elements[index]) {
                        Some(number) => ReplyItem::Integer(number),
                        None => ReplyItem::NonInteger,
                    };
                    items.push(item);
                    index += 1;
                }
                let reply = Reply::Array(items);
                assert(reply@->0 =~= value_shape(*value)->0);
                reply
            },
        }
    }
}

impl Verdict {
    /// Reads the verdict out of a reply of the `redis` client.
    pub fn from_redis_value(value: &redis::Value) -> (result: Result<Verdict, ProtocolViolation>)
        ensures
            result == decoded(value_shape(*value)),
    {
        let reply = Reply::from_value(value);
        Verdict::decode(&reply)
    }

    /// Reads the verdict out of a reply, or says how the reply breaks the
    /// protocol.
    pub fn decode(reply: &Reply) -> (result: Result<Verdict, ProtocolViolation>)
        ensures
            result == decoded(reply@),
    {
        match reply {
            Reply::NonArray => Err(ProtocolViolation::NotAnArray),
            Reply::Array(items) => {
                if items.len() != 5 {
                    return Err(ProtocolViolation::WrongArity { found: items.len() });
                }
                let flag = match items[0] {
                    ReplyItem::Integer(value) => value,
                    ReplyItem::NonInteger => {
                        return Err(ProtocolViolation::NotAnInteger { index: 0 });
                    },
                };
                let limit = match items[1] {
                    ReplyItem::Integer(value) => value,
                    ReplyItem::NonInteger => {
                        return Err(ProtocolViolation::NotAnInteger { index: 1 });
                    },
                };
                let remaining = match items[2] {
                    ReplyItem::Integer(value) => value,
                    ReplyItem::NonInteger => {
                        return Err(ProtocolViolation::NotAnInteger { index: 2 });
                    },
                };
                let retry_after = match items[3] {
                    ReplyItem::Integer(value) => value,
                    ReplyItem::NonInteger => {
                        return Err(ProtocolViolation::NotAnInteger { index: 3 });
                    },
                };
                let reset_after = match items[4] {
                    ReplyItem::Integer(value) => value,
                    ReplyItem::NonInteger => {
                        return Err(ProtocolViolation::NotAnInteger { index: 4 });
                    },
                };
                if flag == 1 {
                    Ok(Verdict::Blocked(BlockedDetails { retry_after, reset_after }))
                } else {
                    Ok(Verdict::Allowed(AllowedDetails { limit, remaining, reset_after }))
                }
            },
        }
    }
}

impl TryFrom<redis::Value> for Verdict {
    type Error = ProtocolViolation;

    /// Reads the verdict out of a reply of the `redis` client.
    fn try_from(value: redis::Value) -> (result: Result<Verdict, ProtocolViolation>) {
        Verdict::from_redis_value(&value)
    }
}

impl TryFromSpecImpl<redis::Value> for Verdict {
    open spec fn obeys_try_from_spec() -> bool {
        true
    }

    open spec fn try_from_spec(value: redis::Value) -> Result<Verdict, ProtocolViolation> {
        decoded(value_shape(value))
    }
}

impl TryFrom<Reply> for Verdict {
    type Error = ProtocolViolation;

    /// Reads the verdict out of a reply.
    fn try_from(reply: Reply) -> (result: Result<Verdict, ProtocolViolation>) {
        Verdict::decode(&reply)
    }
}

impl TryFromSpecImpl<Reply> for Verdict {
    open spec fn obeys_try_from_spec() -> bool {
        true
    }

    open spec fn try_from_spec(reply: Reply) -> Result<Verdict, ProtocolViolation> {
        decoded(reply@)
    }
}

} // verus!
