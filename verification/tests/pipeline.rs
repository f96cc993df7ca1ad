use redis::{Arg, ErrorKind, RedisError};
use std::time::Duration;
use tower_redis_cell::pipeline::{advance, Action, Completion, Event, Stage};
use tower_redis_cell::{
    Error, Key, Policy, ProtocolViolation, ProvideRuleError, Reply, ReplyItem, Rule,
};

fn integers(values: &[i64]) -> Reply {
    Reply::Array(values.iter().map(|value| ReplyItem::Integer(*value)).collect())
}

fn sent(cmd: &redis::Cmd) -> Vec<String> {
    cmd.args_iter()
        .map(|arg| match arg {
            Arg::Simple(bytes) => String::from_utf8(bytes.to_vec()).unwrap(),
            Arg::Cursor => panic!("a cursor argument in a rate-limit command"),
        })
        .collect()
}

fn scenario_rule() -> Rule<'static> {
    Rule::new("user123", Policy::new(1, 10, Duration::from_secs(60), 1, None))
}

fn transport_error() -> RedisError {
    RedisError::from((ErrorKind::IoError, "connection refused"))
}

/// What a whole run did, counted.
#[derive(Debug, Default, PartialEq, Eq)]
struct Tally {
    store_contacts: usize,
    service_calls: usize,
    error_dispatches: usize,
    ignored: usize,
}

fn drive<'a>(events: Vec<Event<'a>>) -> (Stage<'a>, Tally) {
    let mut stage = Stage::Start;
    let mut tally = Tally::default();
    for event in events {
        let (next, action) = advance(stage, event);
        stage = next;
        match action {
            Action::SendCommand(_) => tally.store_contacts += 1,
            Action::CallService(_) => tally.service_calls += 1,
            Action::HandleError(_) => tally.error_dispatches += 1,
            Action::Ignore => tally.ignored += 1,
            _ => panic!("an action that the pipeline does not know"),
        }
    }
    (stage, tally)
}

#[test]
fn no_rule_bypasses_the_store() {
    let (stage, action) = advance(Stage::Start, Event::RuleProvided(Ok(None)));
    assert!(matches!(stage, Stage::Bypass));
    assert!(matches!(action, Action::CallService(Completion::Unruled)));
}

#[test]
fn no_rule_calls_the_service_exactly_once() {
    let (stage, tally) = drive(vec![
        Event::RuleProvided(Ok(None)),
        Event::StoreReplied(integers(&[0, 2, 1, -1, 6])),
        Event::RuleProvided(Ok(Some(scenario_rule()))),
        Event::StoreFailed(transport_error()),
    ]);
    assert!(matches!(stage, Stage::Bypass));
    assert_eq!(
        tally,
        Tally { store_contacts: 0, service_calls: 1, error_dispatches: 0, ignored: 3 }
    );
}

#[test]
fn a_rule_sends_its_command() {
    let (stage, action) = advance(Stage::Start, Event::RuleProvided(Ok(Some(scenario_rule()))));
    match stage {
        Stage::CommandDispatch(rule) => {
            assert!(matches!(rule.key, Key::Str("user123")));
            assert_eq!(rule.policy.tokens, 10);
        }
        other => panic!("unexpected {other:?}"),
    }
    match action {
        Action::SendCommand(cmd) => {
            assert_eq!(sent(&cmd), vec!["CL.THROTTLE", "user123", "1", "10", "60", "1"]);
        }
        _ => panic!("the command was not sent"),
    }
}

#[test]
fn provider_failure_goes_to_the_error_handler() {
    let failure = ProvideRuleError::from("missing key header");
    let (stage, action) = advance(Stage::Start, Event::RuleProvided(Err(failure)));
    assert!(matches!(stage, Stage::ErrorDispatch));
    match action {
        Action::HandleError(Error::ProvideRule(error)) => {
            assert_eq!(error.detail.as_deref(), Some("missing key header"));
            assert!(error.key.is_none());
        }
        _ => panic!("the provider's error was not dispatched"),
    }
}

#[test]
fn provider_failure_never_encodes_a_command() {
    let (stage, tally) = drive(vec![
        Event::RuleProvided(Err(ProvideRuleError::from("missing key header"))),
        Event::StoreReplied(integers(&[0, 2, 1, -1, 6])),
    ]);
    assert!(matches!(stage, Stage::ErrorDispatch));
    assert_eq!(
        tally,
        Tally { store_contacts: 0, service_calls: 0, error_dispatches: 1, ignored: 1 }
    );
}

#[test]
fn blocked_is_answered_by_the_error_handler() {
    let (stage, _) = advance(Stage::Start, Event::RuleProvided(Ok(Some(scenario_rule()))));
    let (stage, action) = advance(stage, Event::StoreReplied(integers(&[1, 2, 0, 5, 11])));
    assert!(matches!(stage, Stage::ErrorDispatch));
    match action {
        Action::HandleError(Error::RateLimit(blocked)) => {
            assert_eq!(blocked.details.retry_after, 5);
            assert_eq!(blocked.details.reset_after, 11);
            assert!(matches!(blocked.rule.key, Key::Str("user123")));
            assert_eq!(blocked.rule.policy.burst, 1);
            assert_eq!(blocked.rule.policy.tokens, 10);
            assert_eq!(blocked.rule.resource, None);
        }
        _ => panic!("the blocked verdict was not dispatched"),
    }
}

#[test]
fn blocked_never_calls_the_service() {
    let (stage, tally) = drive(vec![
        Event::RuleProvided(Ok(Some(scenario_rule()))),
        Event::StoreReplied(integers(&[1, 2, 0, 5, 11])),
        Event::StoreReplied(integers(&[0, 2, 1, -1, 6])),
        Event::RuleProvided(Ok(None)),
    ]);
    assert!(matches!(stage, Stage::ErrorDispatch));
    assert_eq!(
        tally,
        Tally { store_contacts: 1, service_calls: 0, error_dispatches: 1, ignored: 2 }
    );
}

#[test]
fn allowed_forwards_with_the_decoded_details() {
    let rule = Rule::new("user123", Policy::from_tokens_per_hour(5).name("strict"))
        .resource("articles::write");
    let (stage, _) = advance(Stage::Start, Event::RuleProvided(Ok(Some(rule))));
    let (stage, action) = advance(stage, Event::StoreReplied(integers(&[0, 6, 4, -1, 720])));
    assert!(matches!(stage, Stage::Forward));
    match action {
        Action::CallService(Completion::Allowed(allowed)) => {
            assert_eq!(allowed.details.limit, 6);
            assert_eq!(allowed.details.remaining, 4);
            assert_eq!(allowed.details.reset_after, 720);
            assert_eq!(allowed.policy.tokens, 5);
            assert_eq!(allowed.policy.period, Duration::from_secs(3600));
            assert_eq!(allowed.policy.name, Some("strict"));
            assert_eq!(allowed.resource, Some("articles::write"));
        }
        _ => panic!("the request was not forwarded"),
    }
}

#[test]
fn allowed_calls_the_service_exactly_once() {
    let (stage, tally) = drive(vec![
        Event::RuleProvided(Ok(Some(scenario_rule()))),
        Event::StoreReplied(integers(&[0, 2, 1, -1, 6])),
        Event::StoreReplied(integers(&[0, 2, 0, -1, 12])),
        Event::RuleProvided(Ok(None)),
    ]);
    assert!(matches!(stage, Stage::Forward));
    assert_eq!(
        tally,
        Tally { store_contacts: 1, service_calls: 1, error_dispatches: 0, ignored: 2 }
    );
}

#[test]
fn transport_failure_goes_to_the_error_handler() {
    let (stage, _) = advance(Stage::Start, Event::RuleProvided(Ok(Some(scenario_rule()))));
    let (stage, action) = advance(stage, Event::StoreFailed(transport_error()));
    assert!(matches!(stage, Stage::ErrorDispatch));
    match action {
        Action::HandleError(Error::Redis(error)) => {
            assert_eq!(error.kind(), ErrorKind::IoError);
        }
        _ => panic!("the transport's error was not dispatched"),
    }
}

#[test]
fn transport_failure_never_calls_the_service() {
    let (_, tally) = drive(vec![
        Event::RuleProvided(Ok(Some(scenario_rule()))),
        Event::StoreFailed(transport_error()),
        Event::StoreReplied(integers(&[0, 2, 1, -1, 6])),
    ]);
    assert_eq!(
        tally,
        Tally { store_contacts: 1, service_calls: 0, error_dispatches: 1, ignored: 1 }
    );
}

#[test]
fn pool_failure_goes_to_the_error_handler() {
    let (stage, _) = advance(Stage::Start, Event::RuleProvided(Ok(Some(scenario_rule()))));
    let (stage, action) = advance(stage, Event::PoolFailed(deadpool_redis::PoolError::Closed));
    assert!(matches!(stage, Stage::ErrorDispatch));
    assert!(matches!(
        action,
        Action::HandleError(Error::Deadpool(deadpool_redis::PoolError::Closed))
    ));
}

#[test]
fn protocol_violation_goes_to_the_error_handler() {
    let (stage, _) = advance(Stage::Start, Event::RuleProvided(Ok(Some(scenario_rule()))));
    let (stage, action) = advance(stage, Event::StoreReplied(integers(&[0, 2, 1])));
    assert!(matches!(stage, Stage::ErrorDispatch));
    assert!(matches!(
        action,
        Action::HandleError(Error::Protocol(ProtocolViolation::WrongArity { found: 3 }))
    ));

    let (stage, _) = advance(Stage::Start, Event::RuleProvided(Ok(Some(scenario_rule()))));
    let (_, action) = advance(stage, Event::StoreReplied(Reply::NonArray));
    assert!(matches!(
        action,
        Action::HandleError(Error::Protocol(ProtocolViolation::NotAnArray))
    ));
}

#[test]
fn events_out_of_turn_are_ignored() {
    let (stage, action) = advance(Stage::Start, Event::StoreReplied(integers(&[0, 2, 1, -1, 6])));
    assert!(matches!(stage, Stage::Start));
    assert!(matches!(action, Action::Ignore));

    let (stage, action) = advance(stage, Event::StoreFailed(transport_error()));
    assert!(matches!(stage, Stage::Start));
    assert!(matches!(action, Action::Ignore));

    let (stage, _) = advance(stage, Event::RuleProvided(Ok(Some(scenario_rule()))));
    let (stage, action) = advance(stage, Event::RuleProvided(Ok(None)));
    assert!(matches!(stage, Stage::CommandDispatch(_)));
    assert!(matches!(action, Action::Ignore));

    let (stage, action) = advance(stage, Event::StoreReplied(integers(&[0, 2, 1, -1, 6])));
    assert!(matches!(stage, Stage::Forward));
    assert!(matches!(action, Action::CallService(_)));
}

#[test]
fn terminal_stages_stay() {
    for event in [0, 1, 2, 3] {
        let make = |which: i32| match which {
            0 => Event::RuleProvided(Ok(None)),
            1 => Event::RuleProvided(Ok(Some(scenario_rule()))),
            2 => Event::StoreFailed(transport_error()),
            _ => Event::StoreReplied(integers(&[1, 2, 0, 5, 11])),
        };
        let (stage, action) = advance(Stage::Bypass, make(event));
        assert!(matches!(stage, Stage::Bypass));
        assert!(matches!(action, Action::Ignore));
        let (stage, action) = advance(Stage::Forward, make(event));
        assert!(matches!(stage, Stage::Forward));
        assert!(matches!(action, Action::Ignore));
        let (stage, action) = advance(Stage::ErrorDispatch, make(event));
        assert!(matches!(stage, Stage::ErrorDispatch));
        assert!(matches!(action, Action::Ignore));
    }
}

#[test]
fn ten_pass_and_the_eleventh_is_blocked() {
    let policy = Policy::new(1, 10, Duration::from_secs(60), 1, None);
    let mut expected_remaining = 9;
    for call in 0..10i64 {
        let rule = Rule::new("user123", policy);
        let (stage, action) = advance(Stage::Start, Event::RuleProvided(Ok(Some(rule))));
        match action {
            Action::SendCommand(cmd) => {
                assert_eq!(sent(&cmd), vec!["CL.THROTTLE", "user123", "1", "10", "60", "1"]);
            }
            _ => panic!("the command was not sent"),
        }
        let reply = integers(&[0, 10, 9 - call, -1, 6 * (call + 1)]);
        let (stage, action) = advance(stage, Event::StoreReplied(reply));
        assert!(matches!(stage, Stage::Forward));
        match action {
            Action::CallService(Completion::Allowed(allowed)) => {
                assert_eq!(allowed.details.remaining, expected_remaining);
                expected_remaining -= 1;
            }
            _ => panic!("call {call} did not pass"),
        }
    }
    assert_eq!(expected_remaining, -1);

    let rule = Rule::new("user123", policy);
    let (stage, _) = advance(Stage::Start, Event::RuleProvided(Ok(Some(rule))));
    let (stage, action) = advance(stage, Event::StoreReplied(integers(&[1, 10, 0, 5, 60])));
    assert!(matches!(stage, Stage::ErrorDispatch));
    match action {
        Action::HandleError(Error::RateLimit(blocked)) => {
            assert!(blocked.details.retry_after >= 0);
            assert_eq!(blocked.details.retry_after, 5);
        }
        _ => panic!("the eleventh call was not blocked"),
    }
}

#[test]
fn the_same_reply_gives_the_same_outcome() {
    let outcome = |reply: Reply| {
        let (stage, _) = advance(Stage::Start, Event::RuleProvided(Ok(Some(scenario_rule()))));
        let (stage, action) = advance(stage, Event::StoreReplied(reply));
        match (stage, action) {
            (Stage::Forward, Action::CallService(Completion::Allowed(allowed))) => allowed.details,
            _ => panic!("the request was not forwarded"),
        }
    };
    let first = outcome(integers(&[0, 2, 1, -1, 6]));
    let second = outcome(integers(&[0, 2, 1, -1, 6]));
    assert_eq!(first, second);
}
