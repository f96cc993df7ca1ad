//! The decision pipeline of one request, as a state machine.
//!
//! The pipeline never waits itself. Whoever drives it performs the action
//! that a step hands out (a round trip to the store, a call of the guarded
//! service) and reports what came of it as the next event.

use crate::command::{encode, encoded};
use crate::duration::duration_secs;
use crate::error::{Error, ProvideRuleError};
use crate::rule::{ProvideRuleResult, RequestAllowedDetails, RequestBlockedDetails, Rule};
use crate::verdict::{decoded, Reply, Verdict};
use crate::wire::cmd_args;
use vstd::prelude::*;

verus! {

/// Where a request stands.
#[derive(Debug)]
pub enum Stage<'a> {
    /// Nothing has happened yet: the rule provider is to be asked.
    Start,
    /// The command for this rule is on its way: the store's answer is due.
    CommandDispatch(Rule<'a>),
    /// No rule applies: the request has gone on to the guarded service.
    Bypass,
    /// The store let the request pass: it has gone on to the guarded
    /// service.
    Forward,
    /// The request has been handed to the error handler.
    ErrorDispatch,
}

/// What the driver reports back.
#[derive(Debug)]
pub enum Event<'a> {
    /// The rule provider has answered.
    RuleProvided(ProvideRuleResult<'a>),
    /// No connection to the store could be had from the pool.
    PoolFailed(deadpool_redis::PoolError),
    /// The round trip to the store failed.
    StoreFailed(redis::RedisError),
    /// The store has replied.
    StoreReplied(Reply),
}

/// What is owed to the response of the guarded service once it is there.
#[derive(Debug, Clone)]
pub enum Completion {
    /// The request fell under no rule: the unruled handler sees the
    /// response.
    Unruled,
    /// The store let the request pass: the success handler sees the
    /// response, with these details.
    Allowed(RequestAllowedDetails),
}

/// What the driver is to do next.
pub enum Action<'a> {
    /// Send the command to the store and report the reply, or the failure.
    SendCommand(redis::Cmd),
    /// Call the guarded service with the request, and complete its response
    /// as said. An error of the service is the caller's to see, untouched.
    CallService(Completion),
    /// Answer the request with what the error handler makes of this error.
    /// The guarded service is not called.
    HandleError(Error<'a>),
    /// The event is not one that the stage waits for: nothing is to be done.
    Ignore,
}

/// An action with its command read as the argument list that it sends.
pub ghost enum ActionView<'a> {
    SendCommand(Seq<Seq<u8>>),
    CallService(Completion),
    HandleError(Error<'a>),
    Ignore,
}

impl<'a> View for Action<'a> {
    type V = ActionView<'a>;

    open spec fn view(&self) -> ActionView<'a> {
        match self {
            Action::SendCommand(cmd) => ActionView::SendCommand(cmd_args(*cmd)),
            Action::CallService(completion) => ActionView::CallService(*completion),
            Action::HandleError(error) => ActionView::HandleError(*error),
            Action::Ignore => ActionView::Ignore,
        }
    }
}

/// What the details of an allowed request are: the verdict's own, with the
/// policy and the resource of the rule that was checked.
pub open spec fn allowed_details(rule: Rule, verdict: Verdict) -> RequestAllowedDetails
    recommends
        verdict is Allowed,
{
    RequestAllowedDetails {
        details: verdict->Allowed_0,
        policy: rule.policy,
        resource: rule.resource,
    }
}

/// The stage that follows when `event` arrives at `stage`.
pub open spec fn next_stage<'a>(stage: Stage<'a>, event: Event<'a>) -> Stage<'a> {
    match (stage, event) {
        (Stage::Start, Event::RuleProvided(Err(_))) => Stage::ErrorDispatch,
        (Stage::Start, Event::RuleProvided(Ok(None))) => Stage::Bypass,
        (Stage::Start, Event::RuleProvided(Ok(Some(rule)))) => Stage::CommandDispatch(rule),
        (Stage::CommandDispatch(_), Event::PoolFailed(_)) => Stage::ErrorDispatch,
        (Stage::CommandDispatch(_), Event::StoreFailed(_)) => Stage::ErrorDispatch,
        (Stage::CommandDispatch(_), Event::StoreReplied(reply)) => match decoded(reply@) {
            Ok(Verdict::Allowed(_)) => Stage::Forward,
            _ => Stage::ErrorDispatch,
        },
        _ => stage,
    }
}

/// The action that is due when `event` arrives at `stage`.
pub open spec fn reaction<'a>(stage: Stage<'a>, event: Event<'a>) -> ActionView<'a> {
    match (stage, event) {
        (Stage::Start, Event::RuleProvided(Err(error))) => ActionView::HandleError(
            Error::ProvideRule(error),
        ),
        (Stage::Start, Event::RuleProvided(Ok(None))) => ActionView::CallService(
            Completion::Unruled,
        ),
        (Stage::Start, Event::RuleProvided(Ok(Some(rule)))) => ActionView::SendCommand(
            encoded(rule.key, rule.policy),
        ),
        (Stage::CommandDispatch(_), Event::PoolFailed(error)) => ActionView::HandleError(
            Error::Deadpool(error),
        ),
        (Stage::CommandDispatch(_), Event::StoreFailed(error)) => ActionView::HandleError(
            Error::Redis(error),
        ),
        (Stage::CommandDispatch(rule), Event::StoreReplied(reply)) => match decoded(reply@) {
            Err(violation) => ActionView::HandleError(Error::Protocol(violation)),
            Ok(Verdict::Blocked(details)) => ActionView::HandleError(
                Error::RateLimit(RequestBlockedDetails { details, rule }),
            ),
            Ok(Verdict::Allowed(details)) => ActionView::CallService(
                Completion::Allowed(allowed_details(rule, Verdict::Allowed(details))),
            ),
        },
        _ => ActionView::Ignore,
    }
}

/// Takes one step: the stage that follows, and what the driver is to do.
pub fn advance<'a>(stage: Stage<'a>, event: Event<'a>) -> (step: (Stage<'a>, Action<'a>))
    ensures
        step.0 == next_stage(stage, event),
        step.1@ == reaction(stage, event),
{
    match stage {
        Stage::Start => match event {
            Event::RuleProvided(Err(error)) => (
                Stage::ErrorDispatch,
                Action::HandleError(Error::ProvideRule(error)),
            ),
            Event::RuleProvided(Ok(None)) => (Stage::Bypass, Action::CallService(Completion::Unruled)),
            Event::RuleProvided(Ok(Some(rule))) => {
                let cmd = encode(&rule.key, &rule.policy);
                (Stage::CommandDispatch(rule), Action::SendCommand(cmd))
            },
            _ => (Stage::Start, Action::Ignore),
        },
        Stage::CommandDispatch(rule) => match event {
            Event::PoolFailed(error) => (
                Stage::ErrorDispatch,
                Action::HandleError(Error::Deadpool(error)),
            ),
            Event::StoreFailed(error) => (Stage::ErrorDispatch, Action::HandleError(Error::Redis(error))),
            Event::StoreReplied(reply) => match Verdict::decode(&reply) {
                Err(violation) => (
                    Stage::ErrorDispatch,
                    Action::HandleError(Error::Protocol(violation)),
                ),
                Ok(Verdict::Blocked(details)) => (
                    Stage::ErrorDispatch,
                    Action::HandleError(Error::RateLimit(RequestBlockedDetails { details, rule })),
                ),
                Ok(Verdict::Allowed(details)) => {
                    let completion = Completion::Allowed(
                        RequestAllowedDetails {
                            details,
                            policy: rule.policy,
                            resource: rule.resource,
                        },
                    );
                    (Stage::Forward, Action::CallService(completion))
                },
            },
            _ => (Stage::CommandDispatch(rule), Action::Ignore),
        },
        Stage::Bypass => (Stage::Bypass, Action::Ignore),
        Stage::Forward => (Stage::Forward, Action::Ignore),
        Stage::ErrorDispatch => (Stage::ErrorDispatch, Action::Ignore),
    }
}

/// The actions of a whole run: one for each event, in order, starting from
/// `stage`.
pub open spec fn run<'a>(stage: Stage<'a>, events: Seq<Event<'a>>) -> Seq<ActionView<'a>>
    decreases events.len(),
{
    if events.len() == 0 {
        Seq::empty()
    } else {
        seq![reaction(stage, events[0])] + run(next_stage(stage, events[0]), events.drop_first())
    }
}

/// One where the condition holds, zero where it does not.
pub open spec fn one_if(condition: bool) -> nat {
    if condition {
        1
    } else {
        0
    }
}

/// How often the actions call the guarded service.
pub open spec fn service_calls(actions: Seq<ActionView>) -> nat
    decreases actions.len(),
{
    if actions.len() == 0 {
        0
    } else {
        one_if(actions[0] is CallService) + service_calls(actions.drop_first())
    }
}

/// How often the actions contact the store.
pub open spec fn store_contacts(actions: Seq<ActionView>) -> nat
    decreases actions.len(),
{
    if actions.len() == 0 {
        0
    } else {
        one_if(actions[0] is SendCommand) + store_contacts(actions.drop_first())
    }
}

/// How often the actions hand an error to the error handler.
pub open spec fn error_dispatches(actions: Seq<ActionView>) -> nat
    decreases actions.len(),
{
    if actions.len() == 0 {
        0
    } else {
        one_if(actions[0] is HandleError) + error_dispatches(actions.drop_first())
    }
}

/// A stage from which the pipeline takes no further step.
pub open spec fn terminal(stage: Stage) -> bool {
    stage is Bypass || stage is Forward || stage is ErrorDispatch
}

/// A run is its first action followed by the run from the next stage, and
/// the counts add up accordingly.
pub proof fn lemma_run_unfolds<'a>(stage: Stage<'a>, events: Seq<Event<'a>>)
    requires
        events.len() > 0,
    ensures
        run(stage, events).len() == events.len(),
        run(stage, events)[0] == reaction(stage, events[0]),
        run(stage, events).drop_first() == run(
            next_stage(stage, events[0]),
            events.drop_first(),
        ),
        service_calls(run(stage, events)) == one_if(reaction(stage, events[0]) is CallService)
            + service_calls(run(next_stage(stage, events[0]), events.drop_first())),
        store_contacts(run(stage, events)) == one_if(reaction(stage, events[0]) is SendCommand)
            + store_contacts(run(next_stage(stage, events[0]), events.drop_first())),
        error_dispatches(run(stage, events)) == one_if(reaction(stage, events[0]) is HandleError)
            + error_dispatches(run(next_stage(stage, events[0]), events.drop_first())),
{
    let rest = run(next_stage(stage, events[0]), events.drop_first());
    lemma_run_length(next_stage(stage, events[0]), events.drop_first());
    assert(run(stage, events).drop_first() =~= rest);
}

/// A run takes one action for each event.
pub proof fn lemma_run_length<'a>(stage: Stage<'a>, events: Seq<Event<'a>>)
    ensures
        run(stage, events).len() == events.len(),
    decreases events.len(),
{
    if events.len() > 0 {
        lemma_run_length(next_stage(stage, events[0]), events.drop_first());
    }
}

/// Terminal stages are final: whatever is reported to them, the stage stays
/// and nothing is done, so neither the store nor the guarded service is
/// reached again and no second response is made.
pub proof fn lemma_terminal_is_final<'a>(stage: Stage<'a>, events: Seq<Event<'a>>)
    requires
        terminal(stage),
    ensures
        forall|i: int| 0 <= i < events.len() ==> (#[trigger] run(stage, events)[i]) is Ignore,
        service_calls(run(stage, events)) == 0,
        store_contacts(run(stage, events)) == 0,
        error_dispatches(run(stage, events)) == 0,
    decreases events.len(),
{
    if events.len() > 0 {
        lemma_run_unfolds(stage, events);
        lemma_terminal_is_final(stage, events.drop_first());
        let actions = run(stage, events);
        assert forall|i: int| 0 <= i < events.len() implies (#[trigger] actions[i]) is Ignore by {
            if i > 0 {
                assert(actions[i] == actions.drop_first()[i - 1]);
            }
        }
    }
}

/// Once the command is out, the store is not contacted a second time, and
/// the request ends in exactly one of two ways at most: the guarded service
/// is called, or the error handler answers.
pub proof fn lemma_after_dispatch<'a>(rule: Rule<'a>, events: Seq<Event<'a>>)
    ensures
        store_contacts(run(Stage::CommandDispatch(rule), events)) == 0,
        service_calls(run(Stage::CommandDispatch(rule), events)) + error_dispatches(
            run(Stage::CommandDispatch(rule), events),
        ) <= 1,
    decreases events.len(),
{
    let stage = Stage::CommandDispatch(rule);
    if events.len() > 0 {
        lemma_run_unfolds(stage, events);
        let next = next_stage(stage, events[0]);
        if terminal(next) {
            lemma_terminal_is_final(next, events.drop_first());
        } else {
            assert(next == stage);
            lemma_after_dispatch(rule, events.drop_first());
        }
    }
}

/// Whatever is reported, in whatever order: one request contacts the store
/// at most once, calls the guarded service at most once, and is answered by
/// the error handler at most once and only if the service is not called.
pub proof fn lemma_at_most_once<'a>(events: Seq<Event<'a>>)
    ensures
        store_contacts(run(Stage::Start, events)) <= 1,
        service_calls(run(Stage::Start, events)) + error_dispatches(run(Stage::Start, events))
            <= 1,
    decreases events.len(),
{
    if events.len() > 0 {
        lemma_run_unfolds(Stage::Start, events);
        let next = next_stage(Stage::Start, events[0]);
        match next {
            Stage::Start => {
                lemma_at_most_once(events.drop_first());
            },
            Stage::CommandDispatch(rule) => {
                lemma_after_dispatch(rule, events.drop_first());
            },
            _ => {
                lemma_terminal_is_final(next, events.drop_first());
            },
        }
    }
}

/// Where the rule provider says that no rule applies, the guarded service
/// is called exactly once and the store is never contacted, whatever is
/// reported afterwards.
pub proof fn lemma_unruled_bypasses_store<'a>(events: Seq<Event<'a>>)
    requires
        events.len() > 0,
        events[0] == Event::RuleProvided(Ok(None)),
    ensures
        run(Stage::Start, events)[0] == ActionView::CallService(Completion::Unruled),
        service_calls(run(Stage::Start, events)) == 1,
        store_contacts(run(Stage::Start, events)) == 0,
        error_dispatches(run(Stage::Start, events)) == 0,
{
    lemma_run_unfolds(Stage::Start, events);
    lemma_terminal_is_final(Stage::Bypass, events.drop_first());
}

/// Where the rule provider fails, no command is made and nothing is sent:
/// the error handler gets the provider's own error, and the guarded service
/// is never called.
pub proof fn lemma_provider_failure_is_dispatched<'a>(
    events: Seq<Event<'a>>,
    error: ProvideRuleError<'a>,
)
    requires
        events.len() > 0,
        events[0] == Event::RuleProvided(Err(error)),
    ensures
        run(Stage::Start, events)[0] == ActionView::HandleError(Error::ProvideRule(error)),
        store_contacts(run(Stage::Start, events)) == 0,
        service_calls(run(Stage::Start, events)) == 0,
        error_dispatches(run(Stage::Start, events)) == 1,
{
    lemma_run_unfolds(Stage::Start, events);
    lemma_terminal_is_final(Stage::ErrorDispatch, events.drop_first());
}

/// What a run does that starts with a rule and then hears of the store: the
/// first action sends the rule's command, the second is the reaction to
/// what the store did, and nothing follows.
proof fn lemma_ruled_run<'a>(events: Seq<Event<'a>>, rule: Rule<'a>)
    requires
        events.len() > 1,
        events[0] == Event::RuleProvided(Ok(Some(rule))),
        terminal(next_stage(Stage::CommandDispatch(rule), events[1])),
    ensures
        run(Stage::Start, events)[0] == ActionView::SendCommand(encoded(rule.key, rule.policy)),
        run(Stage::Start, events)[1] == reaction(Stage::CommandDispatch(rule), events[1]),
        store_contacts(run(Stage::Start, events)) == 1,
        service_calls(run(Stage::Start, events)) == one_if(
            reaction(Stage::CommandDispatch(rule), events[1]) is CallService,
        ),
        error_dispatches(run(Stage::Start, events)) == one_if(
            reaction(Stage::CommandDispatch(rule), events[1]) is HandleError,
        ),
{
    let dispatched = Stage::CommandDispatch(rule);
    let rest = events.drop_first();
    lemma_run_unfolds(Stage::Start, events);
    lemma_run_unfolds(dispatched, rest);
    lemma_terminal_is_final(next_stage(dispatched, rest[0]), rest.drop_first());
    assert(run(Stage::Start, events)[1] == run(Stage::Start, events).drop_first()[0]);
}

/// Where a rule applies, the store is contacted exactly once, with the
/// rule's command, whatever is reported afterwards.
pub proof fn lemma_ruled_contacts_store_once<'a>(events: Seq<Event<'a>>, rule: Rule<'a>)
    requires
        events.len() > 0,
        events[0] == Event::RuleProvided(Ok(Some(rule))),
    ensures
        run(Stage::Start, events)[0] == ActionView::SendCommand(encoded(rule.key, rule.policy)),
        store_contacts(run(Stage::Start, events)) == 1,
        service_calls(run(Stage::Start, events)) + error_dispatches(run(Stage::Start, events))
            <= 1,
{
    lemma_run_unfolds(Stage::Start, events);
    lemma_after_dispatch(rule, events.drop_first());
}

/// Where a rule applies and the store blocks the request, the guarded
/// service is never called: the error handler gets the verdict's details
/// together with the rule.
pub proof fn lemma_blocked_never_reaches_service<'a>(
    events: Seq<Event<'a>>,
    rule: Rule<'a>,
    reply: Reply,
)
    requires
        events.len() > 1,
        events[0] == Event::RuleProvided(Ok(Some(rule))),
        events[1] == Event::StoreReplied(reply),
        decoded(reply@) matches Ok(Verdict::Blocked(_)),
    ensures
        run(Stage::Start, events)[1] == ActionView::HandleError(
            Error::RateLimit(
                RequestBlockedDetails { details: decoded(reply@)->Ok_0->Blocked_0, rule },
            ),
        ),
        service_calls(run(Stage::Start, events)) == 0,
        store_contacts(run(Stage::Start, events)) == 1,
        error_dispatches(run(Stage::Start, events)) == 1,
{
    lemma_ruled_run(events, rule);
}

/// Where a rule applies and the store lets the request pass, the guarded
/// service is called exactly once, and what the success handler is owed are
/// the very details that decoding gave, with the rule's policy and resource.
pub proof fn lemma_allowed_reaches_service_once<'a>(
    events: Seq<Event<'a>>,
    rule: Rule<'a>,
    reply: Reply,
)
    requires
        events.len() > 1,
        events[0] == Event::RuleProvided(Ok(Some(rule))),
        events[1] == Event::StoreReplied(reply),
        decoded(reply@) matches Ok(Verdict::Allowed(_)),
    ensures
        run(Stage::Start, events)[1] == ActionView::CallService(
            Completion::Allowed(
                RequestAllowedDetails {
                    details: decoded(reply@)->Ok_0->Allowed_0,
                    policy: rule.policy,
                    resource: rule.resource,
                },
            ),
        ),
        service_calls(run(Stage::Start, events)) == 1,
        store_contacts(run(Stage::Start, events)) == 1,
        error_dispatches(run(Stage::Start, events)) == 0,
{
    lemma_ruled_run(events, rule);
}

/// Where the store cannot be reached or the round trip fails, the error
/// handler gets the transport's own error and the guarded service is never
/// called.
pub proof fn lemma_transport_failure_is_dispatched<'a>(
    events: Seq<Event<'a>>,
    rule: Rule<'a>,
)
    requires
        events.len() > 1,
        events[0] == Event::RuleProvided(Ok(Some(rule))),
        events[1] is StoreFailed || events[1] is PoolFailed,
    ensures
        events[1] matches Event::StoreFailed(error) ==> run(Stage::Start, events)[1]
            == ActionView::HandleError(Error::Redis(error)),
        events[1] matches Event::PoolFailed(error) ==> run(Stage::Start, events)[1]
            == ActionView::HandleError(Error::Deadpool(error)),
        service_calls(run(Stage::Start, events)) == 0,
        error_dispatches(run(Stage::Start, events)) == 1,
{
    lemma_ruled_run(events, rule);
}

/// Where the store's reply breaks the protocol, the error handler gets the
/// violation and the guarded service is never called.
pub proof fn lemma_violation_is_dispatched<'a>(
    events: Seq<Event<'a>>,
    rule: Rule<'a>,
    reply: Reply,
)
    requires
        events.len() > 1,
        events[0] == Event::RuleProvided(Ok(Some(rule))),
        events[1] == Event::StoreReplied(reply),
        decoded(reply@) is Err,
    ensures
        run(Stage::Start, events)[1] == ActionView::HandleError(
            Error::Protocol(decoded(reply@)->Err_0),
        ),
        service_calls(run(Stage::Start, events)) == 0,
        error_dispatches(run(Stage::Start, events)) == 1,
{
    lemma_ruled_run(events, rule);
}

/// The pipeline repeats itself: two keys of the same bytes under policies of
/// the same numbers send the same command, and two replies of the same
/// elements lead to the same verdict, the same stage and the same action,
/// however often the round is played.
pub proof fn lemma_pipeline_repeats<'a>(
    first_rule: Rule<'a>,
    second_rule: Rule<'a>,
    first_reply: Reply,
    second_reply: Reply,
)
    requires
        first_rule.key.wire() == second_rule.key.wire(),
        first_rule.policy.burst == second_rule.policy.burst,
        first_rule.policy.tokens == second_rule.policy.tokens,
        duration_secs(first_rule.policy.period) == duration_secs(second_rule.policy.period),
        first_rule.policy.apply == second_rule.policy.apply,
        first_reply@ == second_reply@,
    ensures
        reaction(Stage::Start, Event::RuleProvided(Ok(Some(first_rule)))) == reaction(
            Stage::Start,
            Event::RuleProvided(Ok(Some(second_rule))),
        ),
        decoded(first_reply@) == decoded(second_reply@),
        next_stage(Stage::CommandDispatch(first_rule), Event::StoreReplied(first_reply))
            == next_stage(Stage::CommandDispatch(first_rule), Event::StoreReplied(second_reply)),
        reaction(Stage::CommandDispatch(first_rule), Event::StoreReplied(first_reply))
            == reaction(Stage::CommandDispatch(first_rule), Event::StoreReplied(second_reply)),
{
}

} // verus!
