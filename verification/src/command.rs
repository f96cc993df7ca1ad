//! The `CL.THROTTLE` command: a key and a policy as the store's argument list.

use crate::decimal::{decimal, lemma_parse_decimal_inverts, parse_decimal};
use crate::duration::duration_secs;
use crate::key::Key;
use crate::policy::Policy;
use crate::wire::{arg_i64, arg_str, arg_u64, arg_uuid, cmd_args};
use std::time::Duration;
use vstd::prelude::*;
use vstd::std_specs::convert::FromSpecImpl;
use vstd::utf8::{encode_utf8, is_ascii_chars, is_ascii_chars_encode_utf8};

verus! {

/// The name of the store's rate-limit operation.
pub const COMMAND_NAME: &'static str = "CL.THROTTLE";

/// The command's name as it goes on the wire.
pub open spec fn command_name() -> Seq<u8> {
    encode_utf8("CL.THROTTLE"@)
}

/// The argument list of one rate-limit check: the command's name, the key,
/// then burst, tokens, period in whole seconds and cost, each in decimal.
pub open spec fn throttle_args(
    key: Seq<u8>,
    burst: nat,
    tokens: nat,
    period_secs: nat,
    apply: nat,
) -> Seq<Seq<u8>> {
    seq![
        command_name(),
        key,
        decimal(burst),
        decimal(tokens),
        decimal(period_secs),
        decimal(apply),
    ]
}

/// The argument list that checks `key` against `policy`.
pub open spec fn encoded(key: Key, policy: Policy) -> Seq<Seq<u8>> {
    throttle_args(
        key.wire(),
        policy.burst as nat,
        policy.tokens as nat,
        duration_secs(policy.period) as nat,
        policy.apply as nat,
    )
}

/// What an argument list asks of the store.
pub ghost struct Arguments {
    pub key: Seq<u8>,
    pub burst: nat,
    pub tokens: nat,
    pub period_secs: nat,
    pub apply: nat,
}

/// Reads an argument list back: six arguments, the command's name first,
/// the last four of them decimal numbers.
pub open spec fn decode_args(args: Seq<Seq<u8>>) -> Option<Arguments> {
    if args.len() != 6 || args[0] != command_name() {
        None
    } else {
        match (
            parse_decimal(args[2]),
            parse_decimal(args[3]),
            parse_decimal(args[4]),
            parse_decimal(args[5]),
        ) {
            (Some(burst), Some(tokens), Some(period_secs), Some(apply)) => Some(
                Arguments { key: args[1], burst, tokens, period_secs, apply },
            ),
            _ => None,
        }
    }
}

/// The command's name on the wire is its eleven ASCII characters.
pub proof fn lemma_command_name_bytes()
    ensures
        command_name() == seq![67u8, 76, 46, 84, 72, 82, 79, 84, 84, 76, 69],
{
    reveal_strlit("CL.THROTTLE");
    let chars = "CL.THROTTLE"@;
    assert(is_ascii_chars(chars));
    is_ascii_chars_encode_utf8(chars);
    assert(command_name() =~= seq![67u8, 76, 46, 84, 72, 82, 79, 84, 84, 76, 69]);
}

/// Encoding loses nothing of a policy: reading the argument list back gives
/// the key's bytes and the policy's burst, tokens, period in seconds and
/// cost.
pub proof fn lemma_encoding_round_trips(key: Key, policy: Policy)
    ensures
        decode_args(encoded(key, policy)) == Some(
            Arguments {
                key: key.wire(),
                burst: policy.burst as nat,
                tokens: policy.tokens as nat,
                period_secs: duration_secs(policy.period) as nat,
                apply: policy.apply as nat,
            },
        ),
{
    lemma_parse_decimal_inverts(policy.burst as nat);
    lemma_parse_decimal_inverts(policy.tokens as nat);
    lemma_parse_decimal_inverts(duration_secs(policy.period) as nat);
    lemma_parse_decimal_inverts(policy.apply as nat);
}

/// Builds the store's command for one check of `key` against `policy`.
pub fn encode(key: &Key<'_>, policy: &Policy) -> (cmd: redis::Cmd)
    ensures
        cmd_args(cmd) == encoded(*key, *policy),
{
    let mut cmd = redis::Cmd::new();
    arg_str(&mut cmd, COMMAND_NAME);
    match key {
        Key::String(value) => arg_str(&mut cmd, value.as_str()),
        Key::Str(value) => arg_str(&mut cmd, value),
        Key::Usize(value) => arg_u64(&mut cmd, *value as u64),
        Key::Isize(value) => arg_i64(&mut cmd, *value as i64),
        Key::Uuid(value) => arg_uuid(&mut cmd, value),
    }
    arg_u64(&mut cmd, policy.burst as u64);
    arg_u64(&mut cmd, policy.tokens as u64);
    arg_u64(&mut cmd, policy.period.as_secs());
    arg_u64(&mut cmd, policy.apply as u64);
    assert(cmd_args(cmd) =~= encoded(*key, *policy));
    cmd
}

/// A key paired with the policy to check it against, on its way to becoming
/// the store's command.
pub struct ThrottleCmd<'a, K> {
    key: K,
    policy: &'a Policy,
}

impl<'a, K> ThrottleCmd<'a, K> {
    /// Pairs a key with the policy to check it against.
    pub fn new(key: K, policy: &'a Policy) -> (cmd: Self)
        ensures
            cmd.key() == key,
            cmd.policy() == *policy,
    {
        ThrottleCmd { key, policy }
    }

    /// The key to check.
    pub closed spec fn key(self) -> K {
        self.key
    }

    /// The policy to check it against.
    pub closed spec fn policy(self) -> Policy {
        *self.policy
    }
}

// A command of the client cannot be written down in a contract, only its
// argument list can: each conversion below states what it makes in the
// `ensures` of `from`, and declares that `from_spec` says nothing.
impl<'a, 'k> From<ThrottleCmd<'a, &'k Key<'k>>> for redis::Cmd {
    /// The store's command for the pair.
    fn from(cmd: ThrottleCmd<'a, &'k Key<'k>>) -> (out: Self)
        ensures
            cmd_args(out) == encoded(*cmd.key(), cmd.policy()),
    {
        encode(cmd.key, cmd.policy)
    }
}

impl<'a, 'k> FromSpecImpl<ThrottleCmd<'a, &'k Key<'k>>> for redis::Cmd {
    open spec fn obeys_from_spec() -> bool {
        false
    }

    open spec fn from_spec(cmd: ThrottleCmd<'a, &'k Key<'k>>) -> Self {
        arbitrary()
    }
}

impl<'a, 'k> From<ThrottleCmd<'a, Key<'k>>> for redis::Cmd {
    /// The store's command for the pair.
    fn from(cmd: ThrottleCmd<'a, Key<'k>>) -> (out: Self)
        ensures
            cmd_args(out) == encoded(cmd.key(), cmd.policy()),
    {
        encode(&cmd.key, cmd.policy)
    }
}

impl<'a, 'k> FromSpecImpl<ThrottleCmd<'a, Key<'k>>> for redis::Cmd {
    open spec fn obeys_from_spec() -> bool {
        false
    }

    open spec fn from_spec(cmd: ThrottleCmd<'a, Key<'k>>) -> Self {
        arbitrary()
    }
}

impl<'a, 'k> From<ThrottleCmd<'a, &'k str>> for redis::Cmd {
    /// The store's command for the pair, the key being the string itself.
    fn from(cmd: ThrottleCmd<'a, &'k str>) -> (out: Self)
        ensures
            cmd_args(out) == encoded(Key::Str(cmd.key()), cmd.policy()),
    {
        encode(&Key::Str(cmd.key), cmd.policy)
    }
}

impl<'a, 'k> FromSpecImpl<ThrottleCmd<'a, &'k str>> for redis::Cmd {
    open spec fn obeys_from_spec() -> bool {
        false
    }

    open spec fn from_spec(cmd: ThrottleCmd<'a, &'k str>) -> Self {
        arbitrary()
    }
}

/// A rate-limit check spelled out field by field, for callers that have no
/// `Policy` at hand.
#[derive(Clone, Debug)]
pub struct RedisCellCommand<'a> {
    pub key: &'a str,
    pub burst: usize,
    pub tokens: usize,
    pub period: Duration,
    pub apply: usize,
}

/// What a builder has been told so far.
pub ghost struct BuilderView {
    pub key: Seq<char>,
    pub burst: Option<usize>,
    pub tokens: Option<usize>,
    pub period: Option<Duration>,
    pub apply: Option<usize>,
}

/// Collects the fields of a `RedisCellCommand`; what is not set takes its
/// default: a burst of 15, 30 tokens per 60 seconds, a cost of 1.
#[derive(Clone, Debug)]
pub struct RedisCellCommandBuilder<'a> {
    key: &'a str,
    burst: Option<usize>,
    tokens: Option<usize>,
    period: Option<Duration>,
    apply: Option<usize>,
}

impl<'a> View for RedisCellCommandBuilder<'a> {
    type V = BuilderView;

    closed spec fn view(&self) -> BuilderView {
        BuilderView {
            key: self.key@,
            burst: self.burst,
            tokens: self.tokens,
            period: self.period,
            apply: self.apply,
        }
    }
}

impl<'a> RedisCellCommand<'a> {
    /// A builder for a check of `key`, with nothing else set yet.
    pub fn builder(key: &'a str) -> (builder: RedisCellCommandBuilder<'a>)
        ensures
            builder@ == (BuilderView {
                key: key@,
                burst: None,
                tokens: None,
                period: None,
                apply: None,
            }),
    {
        RedisCellCommandBuilder::new(key)
    }

    /// The argument list of this check.
    pub open spec fn encoded(self) -> Seq<Seq<u8>> {
        throttle_args(
            encode_utf8(self.key@),
            self.burst as nat,
            self.tokens as nat,
            duration_secs(self.period) as nat,
            self.apply as nat,
        )
    }
}

impl<'a> RedisCellCommandBuilder<'a> {
    /// A builder for a check of `key`, with nothing else set yet.
    pub fn new(key: &'a str) -> (builder: RedisCellCommandBuilder<'a>)
        ensures
            builder@ == (BuilderView {
                key: key@,
                burst: None,
                tokens: None,
                period: None,
                apply: None,
            }),
    {
        RedisCellCommandBuilder { key, burst: None, tokens: None, period: None, apply: None }
    }

    /// Sets the burst, and hands the builder back for the next call.
    pub fn burst(&mut self, value: usize) -> (builder: &mut Self)
        ensures
            builder@ == (BuilderView { burst: Some(value), ..old(self)@ }),
            *final(self) == *final(builder),
    {
        self.burst = Some(value);
        self
    }

    /// Sets the tokens per period, and hands the builder back for the next
    /// call.
    pub fn tokens(&mut self, value: usize) -> (builder: &mut Self)
        ensures
            builder@ == (BuilderView { tokens: Some(value), ..old(self)@ }),
            *final(self) == *final(builder),
    {
        self.tokens = Some(value);
        self
    }

    /// Sets the period, and hands the builder back for the next call.
    pub fn period(&mut self, value: Duration) -> (builder: &mut Self)
        ensures
            builder@ == (BuilderView { period: Some(value), ..old(self)@ }),
            *final(self) == *final(builder),
    {
        self.period = Some(value);
        self
    }

    /// Sets the cost of a request, and hands the builder back for the next
    /// call.
    pub fn apply(&mut self, value: usize) -> (builder: &mut Self)
        ensures
            builder@ == (BuilderView { apply: Some(value), ..old(self)@ }),
            *final(self) == *final(builder),
    {
        self.apply = Some(value);
        self
    }

    /// The command with every field set: to what the builder was told, or
    /// else to its default.
    pub fn build(&mut self) -> (command: RedisCellCommand<'a>)
        ensures
            *final(self) == *old(self),
            command.key@ == old(self)@.key,
            command.burst == (match old(self)@.burst { Some(value) => value, None => 15 }),
            command.tokens == (match old(self)@.tokens { Some(value) => value, None => 30 }),
            (match old(self)@.period {
                Some(value) => command.period == value,
                None => duration_secs(command.period) == 60,
            }),
            command.apply == (match old(self)@.apply { Some(value) => value, None => 1 }),
    {
        RedisCellCommand {
            key: self.key,
            burst: match self.burst { Some(value) => value, None => 15 },
            tokens: match self.tokens { Some(value) => value, None => 30 },
            period: match self.period { Some(value) => value, None => Duration::from_secs(60) },
            apply: match self.apply { Some(value) => value, None => 1 },
        }
    }
}

impl<'a> From<RedisCellCommand<'a>> for redis::Cmd {
    /// The store's command for this check.
    fn from(val: RedisCellCommand<'a>) -> (out: Self)
        ensures
            cmd_args(out) == val.encoded(),
    {
        let mut cmd = redis::Cmd::new();
        arg_str(&mut cmd, COMMAND_NAME);
        arg_str(&mut cmd, val.key);
        arg_u64(&mut cmd, val.burst as u64);
        arg_u64(&mut cmd, val.tokens as u64);
        arg_u64(&mut cmd, val.period.as_secs());
        arg_u64(&mut cmd, val.apply as u64);
        assert(cmd_args(cmd) =~= val.encoded());
        cmd
    }
}

impl<'a> FromSpecImpl<RedisCellCommand<'a>> for redis::Cmd {
    open spec fn obeys_from_spec() -> bool {
        false
    }

    open spec fn from_spec(val: RedisCellCommand<'a>) -> Self {
        arbitrary()
    }
}

} // verus!
