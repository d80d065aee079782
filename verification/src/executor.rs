use vstd::prelude::*;
use crate::error::FeedError;

verus! {

/// How long, in seconds, a rate-limited call waits before its one retry
/// unless the caller chooses otherwise.
pub const DEFAULT_BACKOFF_SECONDS: u64 = 60;

/// The status with which the platform reports that its rate limit is reached.
pub const TOO_MANY_REQUESTS: u16 = 429;

/// What one attempt of a call came back with.
#[derive(Clone, Debug, PartialEq, Eq)]
pub enum Reply {
    /// The platform answered.
    Answered { status: u16, body: String },
    /// No answer arrived.
    Unreachable,
}

/// A [`Reply`] as mathematical values.
pub enum ReplyView {
    Answered { status: u16, body: Seq<char> },
    Unreachable,
}

impl View for Reply {
    type V = ReplyView;

    open spec fn view(&self) -> ReplyView {
        match *self {
            Reply::Answered { status, body } => ReplyView::Answered { status, body: body@ },
            Reply::Unreachable => ReplyView::Unreachable,
        }
    }
}

/// The four kinds of reply that the executor tells apart.
#[derive(Clone, Copy, Debug, PartialEq, Eq, Structural)]
pub enum ReplyClass {
    Success,
    RateLimited,
    HttpError,
    TransportError,
}

/// The class of a reply: a status of the 2xx range is a success, 429 is a
/// rate limit, every other status an HTTP error.
pub open spec fn class_of(reply: ReplyView) -> ReplyClass {
    match reply {
        ReplyView::Answered { status, .. } => if 200 <= status < 300 {
            ReplyClass::Success
        } else if status == TOO_MANY_REQUESTS {
            ReplyClass::RateLimited
        } else {
            ReplyClass::HttpError
        },
        ReplyView::Unreachable => ReplyClass::TransportError,
    }
}

/// Classifies a reply.
pub fn classify(reply: &Reply) -> (class: ReplyClass)
    ensures
        class == class_of(reply@),
{
    match reply {
        Reply::Answered { status, .. } => {
            if 200 <= *status && *status < 300 {
                ReplyClass::Success
            } else if *status == TOO_MANY_REQUESTS {
                ReplyClass::RateLimited
            } else {
                ReplyClass::HttpError
            }
        },
        Reply::Unreachable => ReplyClass::TransportError,
    }
}

/// The state of one call to the platform: how long to back off when the
/// platform reports its rate limit, and whether the one retry is spent.
#[derive(Clone, Copy, Debug, PartialEq, Eq, Structural)]
pub struct Executor {
    pub backoff_seconds: u64,
    pub retried: bool,
}

/// What the caller does after an attempt.
#[derive(Debug, PartialEq, Eq)]
pub enum ExecutorStep {
    /// Sleep `after_seconds`, send the same request again and hand its reply
    /// to `next`.
    Retry { after_seconds: u64, next: Executor },
    /// The call is over, with this result.
    Deliver(Result<String, FeedError>),
}

/// An [`ExecutorStep`] as mathematical values.
pub enum ExecutorStepView {
    Retry { after_seconds: u64, next: Executor },
    Deliver(Result<Seq<char>, FeedError>),
}

impl View for ExecutorStep {
    type V = ExecutorStepView;

    open spec fn view(&self) -> ExecutorStepView {
        match *self {
            ExecutorStep::Retry { after_seconds, next } => ExecutorStepView::Retry {
                after_seconds,
                next,
            },
            ExecutorStep::Deliver(Ok(body)) => ExecutorStepView::Deliver(Ok(body@)),
            ExecutorStep::Deliver(Err(error)) => ExecutorStepView::Deliver(Err(error)),
        }
    }
}

/// What the outcome of a call holds, as mathematical values.
pub open spec fn outcome_view(outcome: Result<String, FeedError>) -> Result<Seq<char>, FeedError> {
    match outcome {
        Ok(body) => Ok(body@),
        Err(error) => Err(error),
    }
}

/// The executor's rule. A success delivers its body. A rate limit asks for
/// the one retry after the backoff, or, if that retry is spent, delivers
/// `RateLimitedExhausted`. Every other reply delivers its failure at once.
pub open spec fn step(executor: Executor, reply: ReplyView) -> ExecutorStepView {
    match reply {
        ReplyView::Unreachable => ExecutorStepView::Deliver(Err(FeedError::Transport)),
        ReplyView::Answered { status, body } => match class_of(reply) {
            ReplyClass::Success => ExecutorStepView::Deliver(Ok(body)),
            ReplyClass::RateLimited => if executor.retried {
                ExecutorStepView::Deliver(Err(FeedError::RateLimitedExhausted))
            } else {
                ExecutorStepView::Retry {
                    after_seconds: executor.backoff_seconds,
                    next: Executor { backoff_seconds: executor.backoff_seconds, retried: true },
                }
            },
            _ => ExecutorStepView::Deliver(Err(FeedError::Upstream(status))),
        },
    }
}

/// What a whole call amounted to: its result, if it came to one, the number
/// of attempts made and the seconds slept between them.
pub struct Trace {
    pub outcome: Option<Result<Seq<char>, FeedError>>,
    pub calls: nat,
    pub slept: nat,
}

/// Runs the executor against the replies that the platform gives to the
/// successive attempts. Replies behind the one that ends the call are never
/// asked for.
pub open spec fn run(executor: Executor, replies: Seq<ReplyView>) -> Trace
    decreases replies.len(),
{
    if replies.len() == 0 {
        Trace { outcome: None, calls: 0, slept: 0 }
    } else {
        match step(executor, replies[0]) {
            ExecutorStepView::Deliver(outcome) => Trace {
                outcome: Some(outcome),
                calls: 1,
                slept: 0,
            },
            ExecutorStepView::Retry { after_seconds, next } => {
                let rest = run(next, replies.drop_first());
                Trace {
                    outcome: rest.outcome,
                    calls: rest.calls + 1,
                    slept: rest.slept + after_seconds as nat,
                }
            },
        }
    }
}

impl Executor {
    /// An executor that has made no attempt yet.
    pub fn new(backoff_seconds: u64) -> (executor: Executor)
        ensures
            executor == (Executor { backoff_seconds, retried: false }),
    {
        Executor { backoff_seconds, retried: false }
    }

    /// An executor with the default backoff.
    pub fn with_default_backoff() -> (executor: Executor)
        ensures
            executor == (Executor { backoff_seconds: DEFAULT_BACKOFF_SECONDS, retried: false }),
    {
        Executor { backoff_seconds: DEFAULT_BACKOFF_SECONDS, retried: false }
    }

    /// Takes the reply to the attempt just made and says what comes next.
    pub fn on_reply(self, reply: Reply) -> (next: ExecutorStep)
        ensures
            next@ == step(self, reply@),
    {
        let class = classify(&reply);
        match reply {
            Reply::Unreachable => ExecutorStep::Deliver(Err(FeedError::Transport)),
            Reply::Answered { status, body } => match class {
                ReplyClass::Success => ExecutorStep::Deliver(Ok(body)),
                ReplyClass::RateLimited => {
                    if self.retried {
                        ExecutorStep::Deliver(Err(FeedError::RateLimitedExhausted))
                    } else {
                        ExecutorStep::Retry {
                            after_seconds: self.backoff_seconds,
                            next: Executor { backoff_seconds: self.backoff_seconds, retried: true },
                        }
                    }
                },
                _ => ExecutorStep::Deliver(Err(FeedError::Upstream(status))),
            },
        }
    }
}

/// A call whose first attempt is rate limited and whose second succeeds
/// delivers the second reply's body, after two attempts and one backoff.
pub proof fn law_retry_delivers_second_reply(
    backoff_seconds: u64,
    first_body: Seq<char>,
    status: u16,
    body: Seq<char>,
)
    requires
        200 <= status < 300,
    ensures
        run(
            Executor { backoff_seconds, retried: false },
            seq![
                ReplyView::Answered { status: TOO_MANY_REQUESTS, body: first_body },
                ReplyView::Answered { status, body },
            ],
        ) == (Trace { outcome: Some(Ok(body)), calls: 2, slept: backoff_seconds as nat }),
{
    let replies = seq![
        ReplyView::Answered { status: TOO_MANY_REQUESTS, body: first_body },
        ReplyView::Answered { status, body },
    ];
    let rest = replies.drop_first();
    assert(rest.len() == 1 && rest[0] == replies[1]);
    reveal_with_fuel(run, 3);
}

/// A call that is rate limited twice in a row fails with
/// `RateLimitedExhausted` after two attempts and one backoff, whatever the
/// platform would have answered to further attempts.
pub proof fn law_second_rate_limit_is_final(
    backoff_seconds: u64,
    first_body: Seq<char>,
    second_body: Seq<char>,
    further: Seq<ReplyView>,
)
    ensures
        run(
            Executor { backoff_seconds, retried: false },
            seq![
                ReplyView::Answered { status: TOO_MANY_REQUESTS, body: first_body },
                ReplyView::Answered { status: TOO_MANY_REQUESTS, body: second_body },
            ] + further,
        ) == (Trace {
            outcome: Some(Err(FeedError::RateLimitedExhausted)),
            calls: 2,
            slept: backoff_seconds as nat,
        }),
{
    let replies = seq![
        ReplyView::Answered { status: TOO_MANY_REQUESTS, body: first_body },
        ReplyView::Answered { status: TOO_MANY_REQUESTS, body: second_body },
    ] + further;
    let rest = replies.drop_first();
    assert(rest.len() >= 1 && rest[0] == replies[1]);
    reveal_with_fuel(run, 3);
}

/// A reply that is no rate limit ends the call at once: one attempt, no
/// sleep.
pub proof fn law_only_rate_limits_are_retried(executor: Executor, replies: Seq<ReplyView>)
    requires
        replies.len() > 0,
        class_of(replies[0]) != ReplyClass::RateLimited,
    ensures
        run(executor, replies).calls == 1,
        run(executor, replies).slept == 0,
        run(executor, replies).outcome.is_some(),
{
}

/// No call makes more than two attempts or sleeps more than one backoff, and
/// a call that got two replies has come to its result.
pub proof fn law_at_most_one_retry(executor: Executor, replies: Seq<ReplyView>)
    ensures
        run(executor, replies).calls <= 2,
        run(executor, replies).calls <= replies.len(),
        run(executor, replies).slept <= executor.backoff_seconds,
        executor.retried ==> run(executor, replies).calls <= 1 && run(executor, replies).slept == 0,
        replies.len() >= 2 ==> run(executor, replies).outcome.is_some(),
{
    reveal_with_fuel(run, 3);
}

} // verus!
