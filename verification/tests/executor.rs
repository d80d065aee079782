use subscription_feed::error::FeedError;
use subscription_feed::executor::{
    classify, Executor, ExecutorStep, Reply, ReplyClass, DEFAULT_BACKOFF_SECONDS,
    TOO_MANY_REQUESTS,
};

fn answered(status: u16, body: &str) -> Reply {
    Reply::Answered { status, body: body.to_string() }
}

struct Run {
    outcome: Result<String, FeedError>,
    calls: usize,
    slept: u64,
}

fn run(executor: Executor, replies: Vec<Reply>) -> Run {
    let mut executor = executor;
    let mut calls = 0;
    let mut slept = 0;
    for reply in replies {
        calls += 1;
        match executor.on_reply(reply) {
            ExecutorStep::Retry { after_seconds, next } => {
                slept += after_seconds;
                executor = next;
            }
            ExecutorStep::Deliver(outcome) => return Run { outcome, calls, slept },
        }
    }
    panic!("the call did not come to an end");
}

#[test]
fn classify_tells_the_four_classes_apart() {
    assert_eq!(classify(&answered(200, "")), ReplyClass::Success);
    assert_eq!(classify(&answered(204, "")), ReplyClass::Success);
    assert_eq!(classify(&answered(299, "")), ReplyClass::Success);
    assert_eq!(classify(&answered(199, "")), ReplyClass::HttpError);
    assert_eq!(classify(&answered(300, "")), ReplyClass::HttpError);
    assert_eq!(classify(&answered(401, "")), ReplyClass::HttpError);
    assert_eq!(classify(&answered(428, "")), ReplyClass::HttpError);
    assert_eq!(classify(&answered(429, "")), ReplyClass::RateLimited);
    assert_eq!(classify(&answered(430, "")), ReplyClass::HttpError);
    assert_eq!(classify(&answered(500, "")), ReplyClass::HttpError);
    assert_eq!(classify(&answered(0, "")), ReplyClass::HttpError);
    assert_eq!(classify(&Reply::Unreachable), ReplyClass::TransportError);
}

#[test]
fn default_backoff_is_sixty_seconds() {
    assert_eq!(DEFAULT_BACKOFF_SECONDS, 60);
    assert_eq!(TOO_MANY_REQUESTS, 429);
    assert_eq!(
        Executor::with_default_backoff(),
        Executor { backoff_seconds: 60, retried: false }
    );
    assert_eq!(Executor::new(7), Executor { backoff_seconds: 7, retried: false });
}

#[test]
fn success_is_delivered_at_once() {
    let run = run(Executor::with_default_backoff(), vec![answered(200, "{\"ok\":true}")]);
    assert_eq!(run.outcome, Ok("{\"ok\":true}".to_string()));
    assert_eq!(run.calls, 1);
    assert_eq!(run.slept, 0);
}

#[test]
fn rate_limit_then_success_returns_second_reply() {
    let run = run(
        Executor::with_default_backoff(),
        vec![answered(429, "slow down"), answered(200, "second")],
    );
    assert_eq!(run.outcome, Ok("second".to_string()));
    assert_eq!(run.calls, 2);
    assert_eq!(run.slept, 60);
}

#[test]
fn two_rate_limits_exhaust_the_call() {
    let run = run(
        Executor::new(15),
        vec![answered(429, "slow down"), answered(429, "still"), answered(200, "never asked")],
    );
    assert_eq!(run.outcome, Err(FeedError::RateLimitedExhausted));
    assert_eq!(run.calls, 2);
    assert_eq!(run.slept, 15);
}

#[test]
fn retry_step_carries_backoff_and_spent_executor() {
    let step = Executor::new(42).on_reply(answered(429, ""));
    assert_eq!(
        step,
        ExecutorStep::Retry {
            after_seconds: 42,
            next: Executor { backoff_seconds: 42, retried: true }
        }
    );
}

#[test]
fn other_failures_are_not_retried() {
    let upstream = run(Executor::with_default_backoff(), vec![answered(500, "boom")]);
    assert_eq!(upstream.outcome, Err(FeedError::Upstream(500)));
    assert_eq!((upstream.calls, upstream.slept), (1, 0));

    let rejected = run(Executor::with_default_backoff(), vec![answered(401, "no")]);
    assert_eq!(rejected.outcome, Err(FeedError::Upstream(401)));
    assert_eq!((rejected.calls, rejected.slept), (1, 0));

    let transport = run(Executor::with_default_backoff(), vec![Reply::Unreachable]);
    assert_eq!(transport.outcome, Err(FeedError::Transport));
    assert_eq!((transport.calls, transport.slept), (1, 0));
}

#[test]
fn failed_retry_surfaces_its_own_failure() {
    let upstream = run(Executor::new(1), vec![answered(429, ""), answered(503, "")]);
    assert_eq!(upstream.outcome, Err(FeedError::Upstream(503)));
    assert_eq!((upstream.calls, upstream.slept), (2, 1));

    let transport = run(Executor::new(1), vec![answered(429, ""), Reply::Unreachable]);
    assert_eq!(transport.outcome, Err(FeedError::Transport));
    assert_eq!((transport.calls, transport.slept), (2, 1));
}
