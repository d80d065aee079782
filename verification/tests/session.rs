use subscription_feed::collector::Collector;
use subscription_feed::error::FeedError;
use subscription_feed::executor::{Executor, Reply};
use subscription_feed::models::{SavedToken, Timestamp, Video};
use subscription_feed::orchestrator::{Orchestrator, Phase};
use subscription_feed::pagination::Pager;
use subscription_feed::playlists::PlaylistResolver;
use subscription_feed::session::{ChannelTask, Effect, Input, Request, Session, Stage, TaskStep};
use subscription_feed::subscriptions::SubscriptionResolver;

const FIRST_PAGE: &str =
    "https://www.googleapis.com/youtube/v3/subscriptions?part=snippet&mine=true&maxResults=50";

fn credential() -> SavedToken {
    SavedToken {
        access_token: "access".to_string(),
        refresh_token: None,
        expires_in: None,
        issued_at: Timestamp::new(0, 0),
    }
}

fn begin() -> Input {
    Input::Begin { credential: credential(), now: Timestamp::new(1, 0) }
}

fn answered(status: u16, body: &str) -> Input {
    Input::Reply(Reply::Answered { status, body: body.to_string() })
}

fn video(id: &str, secs: i64) -> Video {
    Video {
        url: String::new(),
        video_id: id.to_string(),
        published_at: Timestamp::new(secs, 0),
        title: String::new(),
        thumbnail: String::new(),
        channel_title: String::new(),
    }
}

fn resolving_subscriptions() -> Session {
    Session::with_timing("KEY".to_string(), 300, 9).on(begin()).0
}

fn resolving_playlists(channels: usize) -> Session {
    let ids: Vec<String> = (0..channels)
        .map(|number| {
            format!("{{\"snippet\": {{\"resourceId\": {{\"channelId\": \"UC{}\"}}}}}}", number)
        })
        .collect();
    let body = format!("{{\"items\": [{}]}}", ids.join(","));
    resolving_subscriptions().on(answered(200, &body)).0
}

#[test]
fn session_starts_idle_with_defaults() {
    let session = Session::new("KEY".to_string());
    assert_eq!(
        session,
        Session {
            orchestrator: Orchestrator { phase: Phase::Start, refresh_margin: 300 },
            api_key: "KEY".to_string(),
            backoff_seconds: 60,
            stage: Stage::Idle,
        }
    );
    assert!(!session.is_terminal());
    let timed = Session::with_timing("K".to_string(), 10, 2);
    assert_eq!(timed.orchestrator.refresh_margin, 10);
    assert_eq!(timed.backoff_seconds, 2);
}

#[test]
fn begin_asks_for_the_first_page_in_the_owners_name() {
    let (session, effect) = Session::new("KEY".to_string()).on(begin());
    assert_eq!(
        effect,
        Effect::Send(Request { url: FIRST_PAGE.to_string(), bearer: Some("access".to_string()) })
    );
    assert_eq!(session.orchestrator.phase, Phase::ResolveSubscriptions);
    assert_eq!(
        session.stage,
        Stage::Subscriptions {
            resolver: SubscriptionResolver::new(),
            executor: Executor::new(60),
            bearer: "access".to_string(),
        }
    );
}

#[test]
fn stale_credential_asks_for_the_refresh() {
    let stale = SavedToken {
        access_token: "old".to_string(),
        refresh_token: Some("refresh".to_string()),
        expires_in: Some(100),
        issued_at: Timestamp::new(0, 0),
    };
    let (session, effect) = Session::new("KEY".to_string())
        .on(Input::Begin { credential: stale, now: Timestamp::new(50, 0) });
    assert_eq!(effect, Effect::Refresh { refresh_token: "refresh".to_string() });
    assert_eq!(session.orchestrator.phase, Phase::CredentialCheck);
    assert_eq!(session.stage, Stage::Idle);
    let (session, effect) = session.on(Input::Refreshed(None));
    assert_eq!(effect, Effect::Finish(Err(FeedError::Unauthorized)));
    assert!(session.is_terminal());
}

#[test]
fn rate_limited_subscriptions_are_asked_again_after_the_backoff() {
    let (session, effect) = resolving_subscriptions().on(answered(429, ""));
    assert_eq!(
        effect,
        Effect::Retry {
            after_seconds: 9,
            request: Request { url: FIRST_PAGE.to_string(), bearer: Some("access".to_string()) }
        }
    );
    assert_eq!(session.orchestrator.phase, Phase::ResolveSubscriptions);
    let (session, effect) = session.on(answered(429, ""));
    assert_eq!(effect, Effect::Finish(Err(FeedError::RateLimitedExhausted)));
    assert_eq!(session.orchestrator.phase, Phase::Error);
    assert_eq!(session.stage, Stage::Idle);
}

#[test]
fn each_page_gets_its_own_retry() {
    let page = "{\"items\": [], \"nextPageToken\": \"second\"}";
    let (session, _) = resolving_subscriptions().on(answered(429, ""));
    let (session, effect) = session.on(answered(200, page));
    let second = format!("{}&pageToken=second", FIRST_PAGE);
    assert_eq!(
        effect,
        Effect::Send(Request { url: second.clone(), bearer: Some("access".to_string()) })
    );
    let (session, effect) = session.on(answered(429, ""));
    assert_eq!(
        effect,
        Effect::Retry {
            after_seconds: 9,
            request: Request { url: second, bearer: Some("access".to_string()) }
        }
    );
    let (_, effect) = session.on(answered(200, "{\"items\": []}"));
    assert_eq!(effect, Effect::Finish(Ok(Vec::new())));
}

#[test]
fn rejected_token_ends_the_session() {
    let (session, effect) = resolving_subscriptions().on(answered(401, "{}"));
    assert_eq!(effect, Effect::Finish(Err(FeedError::Unauthorized)));
    assert_eq!(session.orchestrator.phase, Phase::Error);
}

#[test]
fn channels_lead_to_the_first_batch_without_bearer() {
    let session = resolving_playlists(2);
    assert_eq!(session.orchestrator.phase, Phase::ResolvePlaylists);
    let expected = PlaylistResolver {
        channel_ids: vec!["UC0".to_string(), "UC1".to_string()],
        asked: 0,
        found: Vec::new(),
    };
    assert_eq!(session.stage, Stage::Playlists { resolver: expected, executor: Executor::new(9) });
    let (_, effect) = resolving_subscriptions().on(answered(
        200,
        "{\"items\": [{\"snippet\": {\"resourceId\": {\"channelId\": \"UC0\"}}}]}",
    ));
    assert_eq!(
        effect,
        Effect::Send(Request {
            url: "https://www.googleapis.com/youtube/v3/channels?part=contentDetails&id=UC0&key=KEY"
                .to_string(),
            bearer: None
        })
    );
}

#[test]
fn playlists_found_are_fanned_out() {
    let body = r#"{"items": [
        {"id": "UC0", "contentDetails": {"relatedPlaylists": {"uploads": "UU0"}}},
        {"id": "UC1", "contentDetails": {"relatedPlaylists": {"uploads": "UU1"}}}
    ]}"#;
    let (session, effect) = resolving_playlists(2).on(answered(200, body));
    assert_eq!(
        effect,
        Effect::FanOut { playlist_ids: vec!["UU0".to_string(), "UU1".to_string()] }
    );
    assert_eq!(session.orchestrator.phase, Phase::FanOutCollect);
    assert_eq!(session.stage, Stage::Idle);
    let (session, effect) = session
        .on(Input::Collected(vec![vec![video("old", 1)], vec![video("new", 2)]]));
    assert_eq!(effect, Effect::Finish(Ok(vec![video("new", 2), video("old", 1)])));
    assert_eq!(session.orchestrator.phase, Phase::Done);
}

#[test]
fn no_playlist_ends_the_session_with_an_empty_feed() {
    let (session, effect) = resolving_playlists(3).on(answered(200, "{\"items\": [{\"id\": \"UC0\"}]}"));
    assert_eq!(effect, Effect::Finish(Ok(Vec::new())));
    assert_eq!(session.orchestrator.phase, Phase::Done);
}

#[test]
fn failed_batch_ends_the_session() {
    let (session, effect) = resolving_playlists(1).on(answered(500, ""));
    assert_eq!(effect, Effect::Finish(Err(FeedError::Upstream(500))));
    assert_eq!(session.orchestrator.phase, Phase::Error);
    let (_, effect) = resolving_playlists(1).on(Input::Reply(Reply::Unreachable));
    assert_eq!(effect, Effect::Finish(Err(FeedError::Transport)));
    let (_, effect) = resolving_playlists(1).on(answered(200, "no json"));
    assert_eq!(effect, Effect::Finish(Err(FeedError::Transport)));
}

#[test]
fn inputs_out_of_turn_are_turned_away() {
    let (session, effect) = Session::new("KEY".to_string()).on(answered(200, "{}"));
    assert_eq!(effect, Effect::Finish(Err(FeedError::OutOfSequence)));
    assert_eq!(session.orchestrator.phase, Phase::Error);

    let (session, effect) = resolving_subscriptions().on(begin());
    assert_eq!(effect, Effect::Finish(Err(FeedError::OutOfSequence)));
    assert_eq!(session.orchestrator.phase, Phase::Error);
    assert_eq!(session.stage, Stage::Idle);

    let (_, effect) = resolving_playlists(1).on(Input::Collected(Vec::new()));
    assert_eq!(effect, Effect::Finish(Err(FeedError::OutOfSequence)));

    let (done, _) = resolving_subscriptions().on(answered(200, "{}"));
    assert_eq!(done.orchestrator.phase, Phase::Done);
    let (still_done, effect) = done.on(answered(200, "{}"));
    assert_eq!(effect, Effect::Finish(Err(FeedError::OutOfSequence)));
    assert_eq!(still_done.orchestrator.phase, Phase::Done);
}

#[test]
fn task_starts_with_the_first_page() {
    let first = ChannelTask::start("UU0".to_string(), 5, 30, "KEY");
    assert_eq!(
        first,
        TaskStep::Send {
            url: "https://www.googleapis.com/youtube/v3/playlistItems?part=snippet&playlistId=UU0&maxResults=5&key=KEY"
                .to_string(),
            task: ChannelTask {
                collector: Collector {
                    playlist_id: "UU0".to_string(),
                    cap: 5,
                    pager: Pager::new()
                },
                executor: Executor::new(30),
            }
        }
    );
}

fn started() -> ChannelTask {
    match ChannelTask::start("UU0".to_string(), 5, 30, "KEY") {
        TaskStep::Send { task, .. } => task,
        other => panic!("unexpected {:?}", other),
    }
}

#[test]
fn task_retries_a_rate_limited_page_once() {
    let step = started().on_reply(Reply::Answered { status: 429, body: String::new() }, "KEY");
    let task = match step {
        TaskStep::Retry { after_seconds, url, task } => {
            assert_eq!(after_seconds, 30);
            assert!(url.ends_with("playlistId=UU0&maxResults=5&key=KEY"));
            task
        }
        other => panic!("unexpected {:?}", other),
    };
    assert_eq!(task.executor, Executor { backoff_seconds: 30, retried: true });
    let step = task.on_reply(Reply::Answered { status: 429, body: String::new() }, "KEY");
    assert_eq!(step, TaskStep::Complete(Vec::new()));
}

#[test]
fn task_follows_the_pages_and_rests_the_executor() {
    let body = r#"{"items": [{"snippet": {"resourceId": {"videoId": "v1"}, "publishedAt": "2024-01-01T00:00:00Z"}}], "nextPageToken": "second"}"#;
    let (_, task) = match started()
        .on_reply(Reply::Answered { status: 429, body: String::new() }, "KEY")
    {
        TaskStep::Retry { url, task, .. } => (url, task),
        other => panic!("unexpected {:?}", other),
    };
    let step = task.on_reply(Reply::Answered { status: 200, body: body.to_string() }, "KEY");
    let task = match step {
        TaskStep::Send { url, task } => {
            assert!(url.ends_with("&key=KEY&pageToken=second"));
            task
        }
        other => panic!("unexpected {:?}", other),
    };
    assert_eq!(task.executor, Executor::new(30));
    assert_eq!(task.collector.pager.items.len(), 1);
    match task.on_reply(Reply::Unreachable, "KEY") {
        TaskStep::Complete(videos) => {
            assert_eq!(videos.len(), 1);
            assert_eq!(videos[0].video_id, "v1");
        }
        other => panic!("unexpected {:?}", other),
    }
}
