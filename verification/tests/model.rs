use std::borrow::Cow;
use std::time::Duration;
use tower_redis_cell::command::encode;
use tower_redis_cell::{
    advance, Action, AllowedDetails, BlockedDetails, Completion, Event, ExtractKey,
    ExtractKeyError, Key, Policy, RedisCellCommand, Reply, ReplyItem, Rule, Stage, Verdict,
};

#[test]
fn cloned_keys_encode_alike() {
    let policy = Policy::from_tokens_per_second(1);
    let id = uuid::Uuid::from_bytes([
        0xa1, 0xa2, 0xa3, 0xa4, 0xb1, 0xb2, 0xc1, 0xc2, 0xd1, 0xd2, 0xd3, 0xd4, 0xd5, 0xd6, 0xd7,
        0xd8,
    ]);
    for key in [
        Key::String("owner".to_string()),
        Key::Str("user123"),
        Key::Usize(7),
        Key::Isize(-7),
        Key::Uuid(id),
    ] {
        let copy = key.clone();
        assert_eq!(copy.to_string(), key.to_string());
        assert_eq!(
            encode(&copy, &policy).get_packed_command(),
            encode(&key, &policy).get_packed_command()
        );
    }
    match Key::Uuid(id).clone() {
        Key::Uuid(copy) => assert_eq!(copy, id),
        other => panic!("unexpected {other:?}"),
    }
}

#[test]
fn cloned_commands_keep_their_fields() {
    let mut builder = RedisCellCommand::builder("user123");
    let command = builder.period(Duration::from_millis(61_500)).build();
    let copy = command.clone();
    assert_eq!(copy.key, "user123");
    assert_eq!(copy.burst, 15);
    assert_eq!(copy.tokens, 30);
    assert_eq!(copy.period, Duration::from_millis(61_500));
    assert_eq!(copy.apply, 1);
    let first: redis::Cmd = command.into();
    let second: redis::Cmd = copy.into();
    assert_eq!(first.get_packed_command(), second.get_packed_command());
    assert_eq!(
        first.get_packed_command(),
        b"*6\r\n$11\r\nCL.THROTTLE\r\n$7\r\nuser123\r\n$2\r\n15\r\n$2\r\n30\r\n$2\r\n61\r\n$1\r\n1\r\n"
            .to_vec()
    );
}

#[test]
fn cloned_builders_go_their_own_way() {
    let mut builder = RedisCellCommand::builder("k");
    builder.burst(2);
    let mut copy = builder.clone();
    copy.burst(3);
    assert_eq!(builder.build().burst, 2);
    assert_eq!(copy.build().burst, 3);
}

#[test]
fn cloned_rules_keep_their_parts() {
    let rule = Rule::new("user123", Policy::from_tokens_per_hour(5).name("strict"))
        .resource("articles::write");
    let copy = rule.clone();
    assert!(matches!(copy.key, Key::Str("user123")));
    assert_eq!(copy.policy.tokens, 5);
    assert_eq!(copy.policy.period, Duration::from_secs(3600));
    assert_eq!(copy.policy.name, Some("strict"));
    assert_eq!(copy.resource, Some("articles::write"));
}

#[test]
fn cloned_completions_carry_the_same_details() {
    let rule = Rule::new("user123", Policy::from_tokens_per_minute(10));
    let (stage, _) = advance(Stage::Start, Event::RuleProvided(Ok(Some(rule))));
    let reply =
        Reply::Array([0i64, 11, 10, -1, 6].iter().map(|v| ReplyItem::Integer(*v)).collect());
    match advance(stage, Event::StoreReplied(reply)) {
        (_, Action::CallService(completion)) => match (completion.clone(), completion) {
            (Completion::Allowed(copy), Completion::Allowed(details)) => {
                assert_eq!(copy.details, details.details);
                assert_eq!(copy.details, AllowedDetails { limit: 11, remaining: 10, reset_after: 6 });
                assert_eq!(copy.policy.tokens, details.policy.tokens);
                assert_eq!(copy.resource, details.resource);
            }
            _ => panic!("the request was not allowed"),
        },
        _ => panic!("the request was not forwarded"),
    }
}

#[test]
fn verdicts_compare_by_their_details() {
    let allowed = Verdict::Allowed(AllowedDetails { limit: 2, remaining: 1, reset_after: 6 });
    let blocked = Verdict::Blocked(BlockedDetails { retry_after: 5, reset_after: 11 });
    assert_eq!(allowed, allowed.clone());
    assert_ne!(allowed, blocked);
    assert_ne!(
        allowed,
        Verdict::Allowed(AllowedDetails { limit: 2, remaining: 0, reset_after: 6 })
    );
    assert_ne!(
        blocked,
        Verdict::Blocked(BlockedDetails { retry_after: 6, reset_after: 11 })
    );
}

struct Header;

impl ExtractKey<Vec<(&'static str, String)>> for Header {
    type Error = ExtractKeyError;

    fn extract<'a>(
        &self,
        req: &'a Vec<(&'static str, String)>,
    ) -> Result<Cow<'a, str>, Self::Error> {
        req.iter()
            .find(|(name, _)| *name == "x-api-key")
            .map(|(_, value)| Cow::Borrowed(value.as_str()))
            .ok_or_else(|| ExtractKeyError::from("no x-api-key header"))
    }
}

#[test]
fn extracted_keys_borrow_from_the_request() {
    let request = vec![("accept", "*/*".to_string()), ("x-api-key", "user123".to_string())];
    let key = Header.extract(&request).unwrap();
    assert!(matches!(key, Cow::Borrowed("user123")));
    let policy = Policy::new(1, 10, Duration::from_secs(60), 1, None);
    let cmd = encode(&Key::Str(&key), &policy);
    assert_eq!(
        cmd.get_packed_command(),
        b"*6\r\n$11\r\nCL.THROTTLE\r\n$7\r\nuser123\r\n$1\r\n1\r\n$2\r\n10\r\n$2\r\n60\r\n$1\r\n1\r\n"
            .to_vec()
    );

    let anonymous = vec![("accept", "*/*".to_string())];
    let error = Header.extract(&anonymous).unwrap_err();
    assert_eq!(error.to_string(), "failed to extract key: no x-api-key header");
}
