//! The rule provider and the handlers that a pipeline is configured with.

use crate::error::Error;
use crate::pipeline::{advance, next_stage, reaction, Action, Completion, Event, Stage};
use crate::rule::{ProvideRule, ProvideRuleResult, RequestAllowedDetails};
use vstd::prelude::*;

verus! {

/// Makes the response to a request that ends in an error.
///
/// Every closure of the fitting signature is one.
pub trait ErrorHandler<ReqTy, IntoRespTy>: Send + Sync {
    /// Whether the handler can be called with this error and request.
    spec fn accepts(&self, error: Error<'_>, req: &ReqTy) -> bool;

    /// Whether `response` is what the handler can make of this error and
    /// request.
    spec fn produces(&self, error: Error<'_>, req: &ReqTy, response: IntoRespTy) -> bool;

    /// Makes the response.
    fn handle(&self, error: Error<'_>, req: &ReqTy) -> (response: IntoRespTy)
        requires
            self.accepts(error, req),
        ensures
            self.produces(error, req, response),
    ;
}

impl<F, ReqTy, IntoRespTy> ErrorHandler<ReqTy, IntoRespTy> for F where
    F: for<'e> Fn(Error<'e>, &ReqTy) -> IntoRespTy + Send + Sync,
{
    open spec fn accepts(&self, error: Error<'_>, req: &ReqTy) -> bool {
        call_requires(*self, (error, req))
    }

    open spec fn produces(&self, error: Error<'_>, req: &ReqTy, response: IntoRespTy) -> bool {
        call_ensures(*self, (error, req), response)
    }

    fn handle(&self, error: Error<'_>, req: &ReqTy) -> (response: IntoRespTy) {
        self(error, req)
    }
}

/// Shapes the response of the guarded service to a request that the store
/// let pass.
///
/// Every closure of the fitting signature is one. The handler works on the
/// response in place, so its contract speaks of a mutable reference: of the
/// response that the reference points to when the handler is called, and of
/// the one that it points to in the end.
pub trait SuccessHandler<RespTy>: Send + Sync {
    /// Whether the handler can be called with these details and this
    /// reference to the response.
    spec fn accepts(&self, details: RequestAllowedDetails, response: &mut RespTy) -> bool;

    /// Whether the handler can leave the response behind the reference as
    /// the reference has it in the end.
    spec fn shapes(&self, details: RequestAllowedDetails, response: &mut RespTy) -> bool;

    /// Shapes the response in place.
    fn handle(&self, details: RequestAllowedDetails, response: &mut RespTy)
        requires
            forall|r: &mut RespTy| *r == *old(response) ==> #[trigger] self.accepts(details, r),
        ensures
            exists|r: &mut RespTy|
                *r == *old(response) && *final(r) == *final(response) && #[trigger] self.shapes(
                    details,
                    r,
                ),
    ;
}

impl<F, RespTy> SuccessHandler<RespTy> for F where
    F: Fn(RequestAllowedDetails, &mut RespTy) + Send + Sync,
{
    open spec fn accepts(&self, details: RequestAllowedDetails, response: &mut RespTy) -> bool {
        call_requires(*self, (details, response))
    }

    open spec fn shapes(&self, details: RequestAllowedDetails, response: &mut RespTy) -> bool {
        call_ensures(*self, (details, response), ())
    }

    fn handle(&self, details: RequestAllowedDetails, response: &mut RespTy) {
        let ghost before = *response;
        proof {
            assert forall|r: &mut RespTy| *r == before implies call_requires(
                *self,
                (details, r),
            ) by {
                assert(self.accepts(details, r));
            }
        }
        self(details, response);
        proof {
            let after = *response;
            let given = choose|r: &mut RespTy|
                *r == before && *final(r) == after && call_ensures(*self, (details, r), ());
            assert(self.shapes(details, given));
        }
    }
}

/// Shapes the response of the guarded service to a request that fell under
/// no rule.
///
/// Every closure of the fitting signature is one. Its contract speaks of a
/// mutable reference as that of a success handler does.
pub trait UnruledHandler<RespTy>: Send + Sync {
    /// Whether the handler can be called with this reference to the
    /// response.
    spec fn accepts(&self, response: &mut RespTy) -> bool;

    /// Whether the handler can leave the response behind the reference as
    /// the reference has it in the end.
    spec fn shapes(&self, response: &mut RespTy) -> bool;

    /// Shapes the response in place.
    fn handle(&self, response: &mut RespTy)
        requires
            forall|r: &mut RespTy| *r == *old(response) ==> #[trigger] self.accepts(r),
        ensures
            exists|r: &mut RespTy|
                *r == *old(response) && *final(r) == *final(response) && #[trigger] self.shapes(r),
    ;
}

impl<F, RespTy> UnruledHandler<RespTy> for F where F: Fn(&mut RespTy) + Send + Sync {
    open spec fn accepts(&self, response: &mut RespTy) -> bool {
        call_requires(*self, (response,))
    }

    open spec fn shapes(&self, response: &mut RespTy) -> bool {
        call_ensures(*self, (response,), ())
    }

    fn handle(&self, response: &mut RespTy) {
        let ghost before = *response;
        proof {
            assert forall|r: &mut RespTy| *r == before implies call_requires(*self, (r,)) by {
                assert(self.accepts(r));
            }
        }
        self(response);
        proof {
            let after = *response;
            let given = choose|r: &mut RespTy|
                *r == before && *final(r) == after && call_ensures(*self, (r,), ());
            assert(self.shapes(given));
        }
    }
}

/// The error handler of a configuration. There always is one.
#[verifier::reject_recursive_types(ReqTy)]
#[verifier::reject_recursive_types(IntoRespTy)]
pub enum OnError<ReqTy, IntoRespTy> {
    Sync(Box<dyn ErrorHandler<ReqTy, IntoRespTy>>),
}

/// The success handler of a configuration, if one was set.
#[verifier::reject_recursive_types(RespTy)]
pub enum OnSuccess<RespTy> {
    Noop,
    Sync(Box<dyn SuccessHandler<RespTy>>),
}

/// The unruled handler of a configuration, if one was set.
#[verifier::reject_recursive_types(RespTy)]
pub enum OnUnruled<RespTy> {
    Noop,
    Sync(Box<dyn UnruledHandler<RespTy>>),
}

impl<ReqTy, IntoRespTy> OnError<ReqTy, IntoRespTy> {
    /// Whether the handler can be called with this error and request.
    pub open spec fn accepts(self, error: Error<'_>, req: &ReqTy) -> bool {
        self->Sync_0.accepts(error, req)
    }

    /// Whether `response` is what the handler can make of the error.
    pub open spec fn produces(self, error: Error<'_>, req: &ReqTy, response: IntoRespTy) -> bool {
        self->Sync_0.produces(error, req, response)
    }
}

impl<RespTy> OnSuccess<RespTy> {
    /// Whether the response behind the reference can be shaped: always
    /// where no handler is set.
    pub open spec fn accepts(self, details: RequestAllowedDetails, response: &mut RespTy) -> bool {
        match self {
            OnSuccess::Noop => true,
            OnSuccess::Sync(handler) => handler.accepts(details, response),
        }
    }

    /// Whether the handler, if one is set, can leave the response behind
    /// the reference as the reference has it in the end.
    pub open spec fn shapes(self, details: RequestAllowedDetails, response: &mut RespTy) -> bool {
        match self {
            OnSuccess::Noop => true,
            OnSuccess::Sync(handler) => handler.shapes(details, response),
        }
    }
}

impl<RespTy> OnUnruled<RespTy> {
    /// Whether the response behind the reference can be shaped: always
    /// where no handler is set.
    pub open spec fn accepts(self, response: &mut RespTy) -> bool {
        match self {
            OnUnruled::Noop => true,
            OnUnruled::Sync(handler) => handler.accepts(response),
        }
    }

    /// Whether the handler, if one is set, can leave the response behind
    /// the reference as the reference has it in the end.
    pub open spec fn shapes(self, response: &mut RespTy) -> bool {
        match self {
            OnUnruled::Noop => true,
            OnUnruled::Sync(handler) => handler.shapes(response),
        }
    }
}

/// What a pipeline is configured with: who tells the rule of a request,
/// and who shapes the responses. It is built once and then only read.
#[verifier::reject_recursive_types(ReqTy)]
#[verifier::reject_recursive_types(RespTy)]
#[verifier::reject_recursive_types(IntoRespTy)]
pub struct RateLimitConfig<PR, ReqTy, RespTy, IntoRespTy> {
    rule_provider: PR,
    on_error: OnError<ReqTy, IntoRespTy>,
    on_success: OnSuccess<RespTy>,
    on_unruled: OnUnruled<RespTy>,
}

impl<RP, ReqTy, RespTy, IntoRespTy> RateLimitConfig<RP, ReqTy, RespTy, IntoRespTy> {
    /// The rule provider.
    pub closed spec fn rule_provider(self) -> RP {
        self.rule_provider
    }

    /// The error handler.
    pub closed spec fn error_handler(self) -> OnError<ReqTy, IntoRespTy> {
        self.on_error
    }

    /// The success handler, or `Noop`.
    pub closed spec fn success_handler(self) -> OnSuccess<RespTy> {
        self.on_success
    }

    /// The unruled handler, or `Noop`.
    pub closed spec fn unruled_handler(self) -> OnUnruled<RespTy> {
        self.on_unruled
    }

    /// A configuration with the two parts that every pipeline needs. The
    /// success and unruled handlers are left out: responses pass as they
    /// are.
    pub fn new<EH>(rule_provider: RP, error_handler: EH) -> (config: Self) where
        EH: for<'e> Fn(Error<'e>, &ReqTy) -> IntoRespTy + Send + Sync + 'static,

        ensures
            config.rule_provider() == rule_provider,
            forall|error: Error<'_>, req: &ReqTy| #[trigger]
                config.error_handler().accepts(error, req) == call_requires(
                    error_handler,
                    (error, req),
                ),
            forall|error: Error<'_>, req: &ReqTy, response: IntoRespTy| #[trigger]
                config.error_handler().produces(error, req, response) == call_ensures(
                    error_handler,
                    (error, req),
                    response,
                ),
            config.success_handler() is Noop,
            config.unruled_handler() is Noop,
    {
        RateLimitConfig {
            rule_provider,
            on_error: OnError::Sync(Box::new(error_handler)),
            on_success: OnSuccess::Noop,
            on_unruled: OnUnruled::Noop,
        }
    }

    /// The same configuration with `handler` as its success handler.
    pub fn on_success<H>(self, handler: H) -> (config: Self) where
        H: Fn(RequestAllowedDetails, &mut RespTy) + Send + Sync + 'static,

        ensures
            config.rule_provider() == self.rule_provider(),
            config.error_handler() == self.error_handler(),
            config.unruled_handler() == self.unruled_handler(),
            config.success_handler() is Sync,
            forall|details: RequestAllowedDetails, response: &mut RespTy| #[trigger]
                config.success_handler().accepts(details, response) == call_requires(
                    handler,
                    (details, response),
                ),
            forall|details: RequestAllowedDetails, response: &mut RespTy| #[trigger]
                config.success_handler().shapes(details, response) == call_ensures(
                    handler,
                    (details, response),
                    (),
                ),
    {
        let mut config = self;
        config.on_success = OnSuccess::Sync(Box::new(handler));
        config
    }

    /// The same configuration with `handler` as its unruled handler.
    pub fn on_unruled<H>(self, handler: H) -> (config: Self) where
        H: Fn(&mut RespTy) + Send + Sync + 'static,

        ensures
            config.rule_provider() == self.rule_provider(),
            config.error_handler() == self.error_handler(),
            config.success_handler() == self.success_handler(),
            config.unruled_handler() is Sync,
            forall|response: &mut RespTy| #[trigger]
                config.unruled_handler().accepts(response) == call_requires(handler, (response,)),
            forall|response: &mut RespTy| #[trigger]
                config.unruled_handler().shapes(response) == call_ensures(
                    handler,
                    (response,),
                    (),
                ),
    {
        let mut config = self;
        config.on_unruled = OnUnruled::Sync(Box::new(handler));
        config
    }

    /// Whether `step` is the pipeline's first for a request to which the
    /// rule provider gave `answer`.
    pub open spec fn starts_with<'a>(
        self,
        req: &'a ReqTy,
        answer: ProvideRuleResult<'a>,
        step: (Stage<'a>, Action<'a>),
    ) -> bool where RP: ProvideRule<ReqTy> {
        &&& call_ensures(RP::provide, (&self.rule_provider(), req), answer)
        &&& step.0 == next_stage(Stage::Start, Event::RuleProvided(answer))
        &&& step.1@ == reaction(Stage::Start, Event::RuleProvided(answer))
    }

    /// Asks the rule provider about the request and takes the pipeline's
    /// first step with its answer.
    pub fn start<'a>(&self, req: &'a ReqTy) -> (step: (Stage<'a>, Action<'a>)) where
        RP: ProvideRule<ReqTy>,

        ensures
            exists|answer: ProvideRuleResult<'a>| self.starts_with(req, answer, step),
    {
        let answer = self.rule_provider.provide(req);
        let ghost told = answer;
        let step = advance(Stage::Start, Event::RuleProvided(answer));
        assert(self.starts_with(req, told, step));
        step
    }

    /// Whether `response` is what the error handler's answer to this error
    /// converts into.
    pub open spec fn answers_error(
        self,
        error: Error<'_>,
        req: &ReqTy,
        response: RespTy,
    ) -> bool where IntoRespTy: Into<RespTy> {
        exists|made: IntoRespTy| #[trigger]
            self.error_handler().produces(error, req, made) && call_ensures(
                IntoRespTy::into,
                (made,),
                response,
            )
    }

    /// Answers a request that ends in an error: the error handler makes of
    /// the error what then converts into the response.
    pub fn dispatch_error(&self, error: Error<'_>, req: &ReqTy) -> (response: RespTy) where
        IntoRespTy: Into<RespTy>,

        requires
            self.error_handler().accepts(error, req),
        ensures
            self.answers_error(error, req, response),
    {
        match &self.on_error {
            OnError::Sync(handler) => {
                let made = handler.handle(error, req);
                let ghost witness = made;
                let response = made.into();
                assert(self.error_handler().produces(error, req, witness));
                response
            },
        }
    }

    /// Whether no handler is in charge of a response that is to be
    /// completed as said.
    pub open spec fn leaves_untouched(self, completion: Completion) -> bool {
        match completion {
            Completion::Unruled => self.unruled_handler() is Noop,
            Completion::Allowed(_) => self.success_handler() is Noop,
        }
    }

    /// Whether the response behind the reference can be completed as said:
    /// whether the handler in charge, if there is one, accepts it.
    pub open spec fn can_complete(self, completion: Completion, response: &mut RespTy) -> bool {
        match completion {
            Completion::Unruled => self.unruled_handler().accepts(response),
            Completion::Allowed(details) => self.success_handler().accepts(details, response),
        }
    }

    /// Whether the handler in charge, called with the very details of the
    /// completion, can leave the response behind the reference as the
    /// reference has it in the end.
    pub open spec fn completes(self, completion: Completion, response: &mut RespTy) -> bool {
        match completion {
            Completion::Unruled => self.unruled_handler().shapes(response),
            Completion::Allowed(details) => self.success_handler().shapes(details, response),
        }
    }

    /// Completes the response of the guarded service in place: the unruled
    /// handler sees it where no rule applied, the success handler where the
    /// store let the request pass. Where the handler in charge is not set,
    /// the response stays as it is.
    pub fn complete(&self, completion: Completion, response: &mut RespTy)
        requires
            forall|r: &mut RespTy|
                *r == *old(response) ==> #[trigger] self.can_complete(completion, r),
        ensures
            self.leaves_untouched(completion) ==> *final(response) == *old(response),
            !self.leaves_untouched(completion) ==> exists|r: &mut RespTy|
                *r == *old(response) && *final(r) == *final(response) && #[trigger] self.completes(
                    completion,
                    r,
                ),
    {
        let ghost before = *response;
        match completion {
            Completion::Unruled => match &self.on_unruled {
                OnUnruled::Noop => {},
                OnUnruled::Sync(handler) => {
                    proof {
                        assert forall|r: &mut RespTy| *r == before implies #[trigger] handler.accepts(
                            r,
                        ) by {
                            assert(self.can_complete(completion, r));
                        }
                    }
                    handler.handle(response);
                    proof {
                        let after = *response;
                        let given = choose|r: &mut RespTy|
                            *r == before && *final(r) == after && #[trigger] handler.shapes(r);
                        assert(self.completes(completion, given));
                    }
                },
            },
            Completion::Allowed(details) => match &self.on_success {
                OnSuccess::Noop => {},
                OnSuccess::Sync(handler) => {
                    proof {
                        assert forall|r: &mut RespTy| *r == before implies #[trigger] handler.accepts(
                            details,
                            r,
                        ) by {
                            assert(self.can_complete(completion, r));
                        }
                    }
                    handler.handle(details, response);
                    proof {
                        let after = *response;
                        let given = choose|r: &mut RespTy|
                            *r == before && *final(r) == after && #[trigger] handler.shapes(
                                details,
                                r,
                            );
                        assert(self.completes(completion, given));
                    }
                },
            },
        }
    }
}

} // verus!
