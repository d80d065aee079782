use vstd::prelude::*;
use crate::collector::{
    collect_step, items_response_in, playlist_items_url, video_views, Collector, CollectorStep,
    CollectorStepView, CollectorView,
};
use crate::error::FeedError;
use crate::executor::{Executor, ExecutorStep, ExecutorStepView, Reply, ReplyView};
use crate::models::{SavedToken, SavedTokenView, Timestamp, Video, VideoView};
use crate::orchestrator::{
    react, rejection, Command, CommandView, Event, EventView, Orchestrator, Phase,
};
use crate::pagination::PagerView;
use crate::playlists::{
    channels_url, playlist_step, uploads_response_in, PlaylistResolver, PlaylistResolverView,
    PlaylistStep, PlaylistStepView,
};
use crate::subscriptions::{
    channel_response_in, resolve_step, subscriptions_url, ResolverStep, ResolverStepView,
    SubscriptionResolver,
};
use crate::text::{optional_text, texts};

verus! {

/// One request to the platform: its address and, where the request is made
/// in a user's name, the access token to present.
#[derive(Clone, Debug, PartialEq, Eq)]
pub struct Request {
    pub url: String,
    pub bearer: Option<String>,
}

/// A [`Request`] as mathematical values.
pub struct RequestView {
    pub url: Seq<char>,
    pub bearer: Option<Seq<char>>,
}

impl View for Request {
    type V = RequestView;

    open spec fn view(&self) -> RequestView {
        RequestView { url: self.url@, bearer: optional_text(self.bearer) }
    }
}

/// An executor that has made no attempt yet, with the backoff of
/// `executor`.
pub open spec fn rested(executor: Executor) -> Executor {
    Executor { backoff_seconds: executor.backoff_seconds, retried: false }
}

/// The collection of one channel's entries together with the call that is
/// under way for it.
#[derive(Debug, PartialEq, Eq)]
pub struct ChannelTask {
    pub collector: Collector,
    pub executor: Executor,
}

/// A [`ChannelTask`] as mathematical values.
pub struct ChannelTaskView {
    pub collector: CollectorView,
    pub executor: Executor,
}

impl View for ChannelTask {
    type V = ChannelTaskView;

    open spec fn view(&self) -> ChannelTaskView {
        ChannelTaskView { collector: self.collector@, executor: self.executor }
    }
}

/// What the caller of a channel task does next.
#[derive(Debug, PartialEq, Eq)]
pub enum TaskStep {
    /// Get `url` and hand the reply to `task`.
    Send { url: String, task: ChannelTask },
    /// Sleep `after_seconds`, get `url` and hand the reply to `task`.
    Retry { after_seconds: u64, url: String, task: ChannelTask },
    /// The channel is read: these are its entries.
    Complete(Vec<Video>),
}

/// A [`TaskStep`] as mathematical values.
pub enum TaskStepView {
    Send { url: Seq<char>, task: ChannelTaskView },
    Retry { after_seconds: u64, url: Seq<char>, task: ChannelTaskView },
    Complete(Seq<VideoView>),
}

impl View for TaskStep {
    type V = TaskStepView;

    open spec fn view(&self) -> TaskStepView {
        match *self {
            TaskStep::Send { url, task } => TaskStepView::Send { url: url@, task: task@ },
            TaskStep::Retry { after_seconds, url, task } => TaskStepView::Retry {
                after_seconds,
                url: url@,
                task: task@,
            },
            TaskStep::Complete(videos) => TaskStepView::Complete(video_views(videos@)),
        }
    }
}

/// The address of the page that a collector waits for.
pub open spec fn collector_url(collector: CollectorView, api_key: Seq<char>) -> Seq<char> {
    playlist_items_url(collector.playlist_id, collector.cap, api_key, collector.pager.cursor)
}

/// How a channel task starts: with the request for the first page.
pub open spec fn task_begin(
    playlist_id: Seq<char>,
    cap: nat,
    backoff_seconds: u64,
    api_key: Seq<char>,
) -> TaskStepView {
    let collector = CollectorView {
        playlist_id,
        cap,
        pager: PagerView { items: Seq::empty(), cursor: None },
    };
    TaskStepView::Send {
        url: collector_url(collector, api_key),
        task: ChannelTaskView {
            collector,
            executor: Executor { backoff_seconds, retried: false },
        },
    }
}

/// The rule of a channel task: the reply goes to the executor; where that
/// asks for the retry, the same page is requested again after the backoff;
/// where it delivers, the outcome goes to the collector, whose next page is
/// requested with a rested executor, or whose entries are handed out.
pub open spec fn task_step(task: ChannelTaskView, reply: ReplyView, api_key: Seq<char>)
    -> TaskStepView {
    match crate::executor::step(task.executor, reply) {
        ExecutorStepView::Retry { after_seconds, next } => TaskStepView::Retry {
            after_seconds,
            url: collector_url(task.collector, api_key),
            task: ChannelTaskView { collector: task.collector, executor: next },
        },
        ExecutorStepView::Deliver(outcome) => match collect_step(
            task.collector,
            items_response_in(outcome),
        ) {
            CollectorStepView::Next(collector) => TaskStepView::Send {
                url: collector_url(collector, api_key),
                task: ChannelTaskView { collector, executor: rested(task.executor) },
            },
            CollectorStepView::Complete(videos) => TaskStepView::Complete(videos),
        },
    }
}

impl ChannelTask {
    /// Starts the collection of the entries of `playlist_id`.
    pub fn start(playlist_id: String, cap: usize, backoff_seconds: u64, api_key: &str) -> (first:
        TaskStep)
        ensures
            first@ == task_begin(playlist_id@, cap as nat, backoff_seconds, api_key@),
    {
        let collector = Collector::new(playlist_id, cap);
        let url = collector.request_url(api_key);
        TaskStep::Send { url, task: ChannelTask { collector, executor: Executor::new(backoff_seconds) } }
    }

    /// Takes the reply to the request under way and says what comes next.
    pub fn on_reply(self, reply: Reply, api_key: &str) -> (next: TaskStep)
        ensures
            next@ == task_step(self@, reply@, api_key@),
    {
        let backoff_seconds = self.executor.backoff_seconds;
        match self.executor.on_reply(reply) {
            ExecutorStep::Retry { after_seconds, next } => {
                let url = self.collector.request_url(api_key);
                TaskStep::Retry {
                    after_seconds,
                    url,
                    task: ChannelTask { collector: self.collector, executor: next },
                }
            },
            ExecutorStep::Deliver(outcome) => match self.collector.accept_outcome(outcome) {
                CollectorStep::Next(collector) => {
                    let url = collector.request_url(api_key);
                    TaskStep::Send {
                        url,
                        task: ChannelTask { collector, executor: Executor::new(backoff_seconds) },
                    }
                },
                CollectorStep::Complete(videos) => TaskStep::Complete(videos),
            },
        }
    }
}

/// The resolution that is under way within an aggregation, with the call
/// that is under way for it.
#[allow(inconsistent_fields)]
#[derive(Debug, PartialEq, Eq)]
pub enum Stage {
    /// None: the aggregation waits for something else than a reply.
    Idle,
    /// The subscriptions, listed in the name of the owner of `bearer`.
    Subscriptions { resolver: SubscriptionResolver, executor: Executor, bearer: String },
    /// The uploads playlists.
    Playlists { resolver: PlaylistResolver, executor: Executor },
}

/// A [`Stage`] as mathematical values.
#[allow(inconsistent_fields)]
pub enum StageView {
    Idle,
    Subscriptions { resolver: PagerView<Seq<char>>, executor: Executor, bearer: Seq<char> },
    Playlists { resolver: PlaylistResolverView, executor: Executor },
}

impl View for Stage {
    type V = StageView;

    open spec fn view(&self) -> StageView {
        match *self {
            Stage::Idle => StageView::Idle,
            Stage::Subscriptions { resolver, executor, bearer } => StageView::Subscriptions {
                resolver: resolver@,
                executor,
                bearer: bearer@,
            },
            Stage::Playlists { resolver, executor } => StageView::Playlists {
                resolver: resolver@,
                executor,
            },
        }
    }
}

/// One aggregation with every call of its sequential stages: the
/// orchestrator, the key that the platform asks for, the backoff of each
/// call, and the resolution under way.
#[derive(Debug, PartialEq, Eq)]
pub struct Session {
    pub orchestrator: Orchestrator,
    pub api_key: String,
    pub backoff_seconds: u64,
    pub stage: Stage,
}

/// A [`Session`] as mathematical values.
pub struct SessionView {
    pub phase: Phase,
    pub refresh_margin: u64,
    pub api_key: Seq<char>,
    pub backoff_seconds: u64,
    pub stage: StageView,
}

impl View for Session {
    type V = SessionView;

    open spec fn view(&self) -> SessionView {
        SessionView {
            phase: self.orchestrator.phase,
            refresh_margin: self.orchestrator.refresh_margin,
            api_key: self.api_key@,
            backoff_seconds: self.backoff_seconds,
            stage: self.stage@,
        }
    }
}

/// What happened outside since the last step of a session.
#[derive(Debug, PartialEq, Eq)]
pub enum Input {
    /// A request arrived with this credential, at this instant.
    Begin { credential: SavedToken, now: Timestamp },
    /// The identity provider answered the refresh: with a new credential, or
    /// not at all.
    Refreshed(Option<SavedToken>),
    /// The platform's reply to the request last asked for.
    Reply(Reply),
    /// Every channel task came to its end; the lists are in the order of the
    /// playlists that were handed out.
    Collected(Vec<Vec<Video>>),
}

/// An [`Input`] as mathematical values.
pub enum InputView {
    Begin { credential: SavedTokenView, now: Timestamp },
    Refreshed(Option<SavedTokenView>),
    Reply(ReplyView),
    Collected(Seq<Vec<Video>>),
}

impl View for Input {
    type V = InputView;

    open spec fn view(&self) -> InputView {
        match *self {
            Input::Begin { credential, now } => InputView::Begin { credential: credential@, now },
            Input::Refreshed(Some(credential)) => InputView::Refreshed(Some(credential@)),
            Input::Refreshed(None) => InputView::Refreshed(None),
            Input::Reply(reply) => InputView::Reply(reply@),
            Input::Collected(lists) => InputView::Collected(lists@),
        }
    }
}

/// What the caller of a session does next.
#[derive(Debug, PartialEq, Eq)]
pub enum Effect {
    /// Ask the identity provider for a new credential and report
    /// `Input::Refreshed`.
    Refresh { refresh_token: String },
    /// Send the request and report `Input::Reply`.
    Send(Request),
    /// Sleep `after_seconds`, send the request and report `Input::Reply`.
    Retry { after_seconds: u64, request: Request },
    /// Run one channel task per playlist, wait for all of them and report
    /// `Input::Collected` with their lists in this order.
    FanOut { playlist_ids: Vec<String> },
    /// The aggregation is over: the feed, or why there is none.
    Finish(Result<Vec<Video>, FeedError>),
}

/// An [`Effect`] as mathematical values.
pub enum EffectView {
    Refresh { refresh_token: Seq<char> },
    Send(RequestView),
    Retry { after_seconds: u64, request: RequestView },
    FanOut { playlist_ids: Seq<Seq<char>> },
    Finish(Result<Seq<Video>, FeedError>),
}

impl View for Effect {
    type V = EffectView;

    open spec fn view(&self) -> EffectView {
        match *self {
            Effect::Refresh { refresh_token } => EffectView::Refresh { refresh_token: refresh_token@ },
            Effect::Send(request) => EffectView::Send(request@),
            Effect::Retry { after_seconds, request } => EffectView::Retry {
                after_seconds,
                request: request@,
            },
            Effect::FanOut { playlist_ids } => EffectView::FanOut { playlist_ids: texts(playlist_ids@) },
            Effect::Finish(Ok(feed)) => EffectView::Finish(Ok(feed@)),
            Effect::Finish(Err(error)) => EffectView::Finish(Err(error)),
        }
    }
}

impl SessionView {
    /// The session in `phase` with `stage` under way.
    pub open spec fn at(self, phase: Phase, stage: StageView) -> SessionView {
        SessionView {
            phase,
            refresh_margin: self.refresh_margin,
            api_key: self.api_key,
            backoff_seconds: self.backoff_seconds,
            stage,
        }
    }

    /// An executor that has made no attempt yet, with the session's backoff.
    pub open spec fn fresh_executor(self) -> Executor {
        Executor { backoff_seconds: self.backoff_seconds, retried: false }
    }
}

/// The request for the page that a subscription resolver waits for.
pub open spec fn subscriptions_request(resolver: PagerView<Seq<char>>, bearer: Seq<char>)
    -> RequestView {
    RequestView { url: subscriptions_url(resolver.cursor), bearer: Some(bearer) }
}

/// The request for the batch that a playlist resolver waits for.
pub open spec fn playlists_request(resolver: PlaylistResolverView, api_key: Seq<char>)
    -> RequestView {
    RequestView { url: channels_url(resolver.batch(), api_key), bearer: None }
}

/// How a session carries out what the orchestrator decided: a resolution is
/// started with its first request and a rested executor; everything else is
/// passed on to the caller.
pub open spec fn launch(session: SessionView, decided: (Phase, CommandView)) -> (
    SessionView,
    EffectView,
) {
    match decided.1 {
        CommandView::Refresh { refresh_token } => (
            session.at(decided.0, StageView::Idle),
            EffectView::Refresh { refresh_token },
        ),
        CommandView::ResolveSubscriptions { credential } => {
            let resolver = PagerView::<Seq<char>> { items: Seq::empty(), cursor: None };
            (
                session.at(
                    decided.0,
                    StageView::Subscriptions {
                        resolver,
                        executor: session.fresh_executor(),
                        bearer: credential.access_token,
                    },
                ),
                EffectView::Send(subscriptions_request(resolver, credential.access_token)),
            )
        },
        CommandView::ResolvePlaylists { channel_ids } => {
            let resolver = PlaylistResolverView { channel_ids, asked: 0, found: Seq::empty() };
            (
                session.at(
                    decided.0,
                    StageView::Playlists { resolver, executor: session.fresh_executor() },
                ),
                EffectView::Send(playlists_request(resolver, session.api_key)),
            )
        },
        CommandView::FanOut { playlist_ids } => (
            session.at(decided.0, StageView::Idle),
            EffectView::FanOut { playlist_ids },
        ),
        CommandView::Finish(outcome) => (
            session.at(decided.0, StageView::Idle),
            EffectView::Finish(outcome),
        ),
    }
}

/// The session's rule.
///
/// - A reply goes to the executor of the resolution under way. Where that
///   asks for the retry, the same request is made again after the backoff.
///   Where it delivers, the outcome goes to the resolver, whose next request
///   is made with a rested executor, or whose result goes to the
///   orchestrator.
/// - Every other input goes to the orchestrator, provided that no
///   resolution is under way.
/// - An input that the session does not wait for is turned away as the
///   orchestrator turns away an event.
pub open spec fn session_step(session: SessionView, input: InputView) -> (SessionView, EffectView) {
    match (session.stage, input) {
        (
            StageView::Subscriptions { resolver, executor, bearer },
            InputView::Reply(reply),
        ) => match crate::executor::step(executor, reply) {
            ExecutorStepView::Retry { after_seconds, next } => (
                session.at(
                    session.phase,
                    StageView::Subscriptions { resolver, executor: next, bearer },
                ),
                EffectView::Retry { after_seconds, request: subscriptions_request(resolver, bearer) },
            ),
            ExecutorStepView::Deliver(outcome) => match resolve_step(
                resolver,
                channel_response_in(outcome),
            ) {
                ResolverStepView::Next(resolver) => (
                    session.at(
                        session.phase,
                        StageView::Subscriptions { resolver, executor: rested(executor), bearer },
                    ),
                    EffectView::Send(subscriptions_request(resolver, bearer)),
                ),
                ResolverStepView::Complete(channel_ids) => launch(
                    session,
                    react(
                        session.phase,
                        session.refresh_margin,
                        EventView::Subscriptions(Ok(channel_ids)),
                    ),
                ),
                ResolverStepView::Failed(error) => launch(
                    session,
                    react(
                        session.phase,
                        session.refresh_margin,
                        EventView::Subscriptions(Err(error)),
                    ),
                ),
            },
        },
        (StageView::Playlists { resolver, executor }, InputView::Reply(reply)) => match crate::executor::step(
            executor,
            reply,
        ) {
            ExecutorStepView::Retry { after_seconds, next } => (
                session.at(session.phase, StageView::Playlists { resolver, executor: next }),
                EffectView::Retry {
                    after_seconds,
                    request: playlists_request(resolver, session.api_key),
                },
            ),
            ExecutorStepView::Deliver(outcome) => match playlist_step(
                resolver,
                uploads_response_in(outcome),
            ) {
                PlaylistStepView::Next(resolver) => (
                    session.at(
                        session.phase,
                        StageView::Playlists { resolver, executor: rested(executor) },
                    ),
                    EffectView::Send(playlists_request(resolver, session.api_key)),
                ),
                PlaylistStepView::Complete(uploads) => launch(
                    session,
                    react(session.phase, session.refresh_margin, EventView::Playlists(Ok(uploads))),
                ),
                PlaylistStepView::Failed(error) => launch(
                    session,
                    react(session.phase, session.refresh_margin, EventView::Playlists(Err(error))),
                ),
            },
        },
        (StageView::Idle, InputView::Begin { credential, now }) => launch(
            session,
            react(session.phase, session.refresh_margin, EventView::Begin { credential, now }),
        ),
        (StageView::Idle, InputView::Refreshed(credential)) => launch(
            session,
            react(session.phase, session.refresh_margin, EventView::Refreshed(credential)),
        ),
        (StageView::Idle, InputView::Collected(lists)) => launch(
            session,
            react(session.phase, session.refresh_margin, EventView::Collected(lists)),
        ),
        _ => launch(session, rejection(session.phase)),
    }
}

impl Session {
    /// A session at the start, with the default refresh margin and backoff.
    pub fn new(api_key: String) -> (session: Session)
        ensures
            session@ == (SessionView {
                phase: Phase::Start,
                refresh_margin: crate::models::REFRESH_MARGIN_SECONDS,
                api_key: api_key@,
                backoff_seconds: crate::executor::DEFAULT_BACKOFF_SECONDS,
                stage: StageView::Idle,
            }),
    {
        Session {
            orchestrator: Orchestrator::new(),
            api_key,
            backoff_seconds: crate::executor::DEFAULT_BACKOFF_SECONDS,
            stage: Stage::Idle,
        }
    }

    /// A session at the start, with this refresh margin and this backoff.
    pub fn with_timing(api_key: String, refresh_margin: u64, backoff_seconds: u64) -> (session:
        Session)
        ensures
            session@ == (SessionView {
                phase: Phase::Start,
                refresh_margin,
                api_key: api_key@,
                backoff_seconds,
                stage: StageView::Idle,
            }),
    {
        Session {
            orchestrator: Orchestrator::with_refresh_margin(refresh_margin),
            api_key,
            backoff_seconds,
            stage: Stage::Idle,
        }
    }

    /// Whether the aggregation is over.
    pub fn is_terminal(&self) -> (over: bool)
        ensures
            over == (self@.phase == Phase::Done || self@.phase == Phase::Error),
    {
        self.orchestrator.is_terminal()
    }

    fn subscriptions_request(resolver: &SubscriptionResolver, bearer: &String) -> (request: Request)
        ensures
            request@ == subscriptions_request(resolver@, bearer@),
    {
        Request { url: resolver.request_url(), bearer: Some(bearer.clone()) }
    }

    fn playlists_request(resolver: &PlaylistResolver, api_key: &String) -> (request: Request)
        ensures
            request@ == playlists_request(resolver@, api_key@),
    {
        Request { url: resolver.request_url(api_key.as_str()), bearer: None }
    }

    fn launch(
        api_key: String,
        backoff_seconds: u64,
        decided: (Orchestrator, Command),
        Ghost(before): Ghost<SessionView>,
    ) -> (next: (Session, Effect))
        requires
            before.api_key == api_key@,
            before.backoff_seconds == backoff_seconds,
            before.refresh_margin == decided.0.refresh_margin,
        ensures
            (next.0@, next.1@) == launch(before, (decided.0.phase, decided.1@)),
    {
        let orchestrator = decided.0;
        match decided.1 {
            Command::Refresh { refresh_token } => (
                Session { orchestrator, api_key, backoff_seconds, stage: Stage::Idle },
                Effect::Refresh { refresh_token },
            ),
            Command::ResolveSubscriptions { credential } => {
                let resolver = SubscriptionResolver::new();
                let bearer = credential.access_token;
                let request = Self::subscriptions_request(&resolver, &bearer);
                (
                    Session {
                        orchestrator,
                        api_key,
                        backoff_seconds,
                        stage: Stage::Subscriptions {
                            resolver,
                            executor: Executor::new(backoff_seconds),
                            bearer,
                        },
                    },
                    Effect::Send(request),
                )
            },
            Command::ResolvePlaylists { channel_ids } => {
                let resolver = PlaylistResolver { channel_ids, asked: 0, found: Vec::new() };
                proof {
                    assert(resolver@.found =~= Seq::empty());
                }
                let request = Self::playlists_request(&resolver, &api_key);
                (
                    Session {
                        orchestrator,
                        api_key,
                        backoff_seconds,
                        stage: Stage::Playlists { resolver, executor: Executor::new(backoff_seconds) },
                    },
                    Effect::Send(request),
                )
            },
            Command::FanOut { playlist_ids } => (
                Session { orchestrator, api_key, backoff_seconds, stage: Stage::Idle },
                Effect::FanOut { playlist_ids },
            ),
            Command::Finish(outcome) => (
                Session { orchestrator, api_key, backoff_seconds, stage: Stage::Idle },
                Effect::Finish(outcome),
            ),
        }
    }

    /// Takes an input and says where the session stands thereafter and what
    /// the caller does next.
    pub fn on(self, input: Input) -> (next: (Session, Effect))
        ensures
            (next.0@, next.1@) == session_step(self@, input@),
    {
        let ghost before = self@;
        let orchestrator = self.orchestrator;
        let api_key = self.api_key;
        let backoff_seconds = self.backoff_seconds;
        match (self.stage, input) {
            (Stage::Subscriptions { resolver, executor, bearer }, Input::Reply(reply)) => {
                match executor.on_reply(reply) {
                    ExecutorStep::Retry { after_seconds, next } => {
                        let request = Self::subscriptions_request(&resolver, &bearer);
                        (
                            Session {
                                orchestrator,
                                api_key,
                                backoff_seconds,
                                stage: Stage::Subscriptions { resolver, executor: next, bearer },
                            },
                            Effect::Retry { after_seconds, request },
                        )
                    },
                    ExecutorStep::Deliver(outcome) => match resolver.accept_outcome(outcome) {
                        ResolverStep::Next(resolver) => {
                            let request = Self::subscriptions_request(&resolver, &bearer);
                            (
                                Session {
                                    orchestrator,
                                    api_key,
                                    backoff_seconds,
                                    stage: Stage::Subscriptions {
                                        resolver,
                                        executor: Executor::new(executor.backoff_seconds),
                                        bearer,
                                    },
                                },
                                Effect::Send(request),
                            )
                        },
                        ResolverStep::Complete(channel_ids) => Self::launch(
                            api_key,
                            backoff_seconds,
                            orchestrator.advance(Event::Subscriptions(Ok(channel_ids))),
                            Ghost(before),
                        ),
                        ResolverStep::Failed(error) => Self::launch(
                            api_key,
                            backoff_seconds,
                            orchestrator.advance(Event::Subscriptions(Err(error))),
                            Ghost(before),
                        ),
                    },
                }
            },
            (Stage::Playlists { resolver, executor }, Input::Reply(reply)) => {
                match executor.on_reply(reply) {
                    ExecutorStep::Retry { after_seconds, next } => {
                        let request = Self::playlists_request(&resolver, &api_key);
                        (
                            Session {
                                orchestrator,
                                api_key,
                                backoff_seconds,
                                stage: Stage::Playlists { resolver, executor: next },
                            },
                            Effect::Retry { after_seconds, request },
                        )
                    },
                    ExecutorStep::Deliver(outcome) => match resolver.accept_outcome(outcome) {
                        PlaylistStep::Next(resolver) => {
                            let request = Self::playlists_request(&resolver, &api_key);
                            (
                                Session {
                                    orchestrator,
                                    api_key,
                                    backoff_seconds,
                                    stage: Stage::Playlists {
                                        resolver,
                                        executor: Executor::new(executor.backoff_seconds),
                                    },
                                },
                                Effect::Send(request),
                            )
                        },
                        PlaylistStep::Complete(uploads) => Self::launch(
                            api_key,
                            backoff_seconds,
                            orchestrator.advance(Event::Playlists(Ok(uploads))),
                            Ghost(before),
                        ),
                        PlaylistStep::Failed(error) => Self::launch(
                            api_key,
                            backoff_seconds,
                            orchestrator.advance(Event::Playlists(Err(error))),
                            Ghost(before),
                        ),
                    },
                }
            },
            (Stage::Idle, Input::Begin { credential, now }) => Self::launch(
                api_key,
                backoff_seconds,
                orchestrator.advance(Event::Begin { credential, now }),
                Ghost(before),
            ),
            (Stage::Idle, Input::Refreshed(credential)) => Self::launch(
                api_key,
                backoff_seconds,
                orchestrator.advance(Event::Refreshed(credential)),
                Ghost(before),
            ),
            (Stage::Idle, Input::Collected(lists)) => Self::launch(
                api_key,
                backoff_seconds,
                orchestrator.advance(Event::Collected(lists)),
                Ghost(before),
            ),
            _ => Self::launch(api_key, backoff_seconds, orchestrator.reject(), Ghost(before)),
        }
    }
}

/// A session at the start, with nothing under way.
pub open spec fn at_start(session: SessionView) -> bool {
    session.phase == Phase::Start && session.stage == StageView::Idle
}

/// An aggregation whose credential needs no refresh asks for the first page
/// of the subscriptions in the owner's name; if the platform rejects the
/// access token, the aggregation ends there with `Unauthorized`: one
/// request, no feed.
pub proof fn law_rejected_token_ends_the_aggregation(
    session: SessionView,
    credential: SavedTokenView,
    now: Timestamp,
    body: Seq<char>,
)
    requires
        at_start(session),
        !credential.is_stale(now, session.refresh_margin),
    ensures
        ({
            let first = session_step(session, InputView::Begin { credential, now });
            let second = session_step(
                first.0,
                InputView::Reply(
                    ReplyView::Answered { status: crate::subscriptions::UNAUTHORIZED, body },
                ),
            );
            &&& first.1 == EffectView::Send(
                RequestView {
                    url: subscriptions_url(None),
                    bearer: Some(credential.access_token),
                },
            )
            &&& second.1 == EffectView::Finish(Err(FeedError::Unauthorized))
            &&& second.0.phase == Phase::Error
            &&& second.0.stage == StageView::Idle
        }),
{
}

/// A credential without a refresh token is never refreshed, however long
/// ago it expired.
pub proof fn law_no_refresh_without_refresh_token(
    session: SessionView,
    credential: SavedTokenView,
    now: Timestamp,
)
    requires
        at_start(session),
        credential.refresh_token.is_none(),
    ensures
        session_step(session, InputView::Begin { credential, now }).1 == EffectView::Send(
            RequestView { url: subscriptions_url(None), bearer: Some(credential.access_token) },
        ),
{
}

/// A stale credential is refreshed before any request is made, and a
/// refresh that fails ends the aggregation with `Unauthorized`.
pub proof fn law_stale_credential_is_refreshed_first(
    session: SessionView,
    credential: SavedTokenView,
    now: Timestamp,
)
    requires
        at_start(session),
        credential.is_stale(now, session.refresh_margin),
    ensures
        ({
            let first = session_step(session, InputView::Begin { credential, now });
            let second = session_step(first.0, InputView::Refreshed(None));
            &&& first.1 == EffectView::Refresh { refresh_token: credential.refresh_token.unwrap() }
            &&& second.1 == EffectView::Finish(Err(FeedError::Unauthorized))
            &&& second.0.phase == Phase::Error
        }),
{
}

/// When the last batch of channels is answered and no channel had an
/// uploads playlist, the aggregation ends in success with an empty feed.
pub proof fn law_no_playlist_is_an_empty_feed(
    session: SessionView,
    resolver: PlaylistResolverView,
    executor: Executor,
    status: u16,
    body: Seq<char>,
)
    requires
        session.phase == Phase::ResolvePlaylists,
        session.stage == (StageView::Playlists { resolver, executor }),
        resolver.batch_end() >= resolver.channel_ids.len(),
        resolver.found.len() == 0,
        200 <= status < 300,
        crate::playlists::uploads_in(body) == Some(Seq::<crate::playlists::ChannelUploadsView>::empty()),
    ensures
        ({
            let next = session_step(
                session,
                InputView::Reply(ReplyView::Answered { status, body }),
            );
            &&& next.1 == EffectView::Finish(Ok(Seq::<Video>::empty()))
            &&& next.0.phase == Phase::Done
        }),
{
    assert(resolver.found + Seq::<crate::playlists::ChannelUploadsView>::empty() =~= resolver.found);
}

/// A rate-limited request of the subscriptions is made once more after the
/// backoff, and a second rate limit ends the aggregation with
/// `RateLimitedExhausted`.
pub proof fn law_rate_limit_is_fatal_for_subscriptions(
    session: SessionView,
    resolver: PagerView<Seq<char>>,
    executor: Executor,
    bearer: Seq<char>,
    first_body: Seq<char>,
    second_body: Seq<char>,
)
    requires
        session.phase == Phase::ResolveSubscriptions,
        session.stage == (StageView::Subscriptions { resolver, executor, bearer }),
        !executor.retried,
    ensures
        ({
            let limited = |body: Seq<char>|
                InputView::Reply(
                    ReplyView::Answered { status: crate::executor::TOO_MANY_REQUESTS, body },
                );
            let first = session_step(session, limited(first_body));
            let second = session_step(first.0, limited(second_body));
            &&& first.1 == (EffectView::Retry {
                after_seconds: executor.backoff_seconds,
                request: subscriptions_request(resolver, bearer),
            })
            &&& first.0.phase == Phase::ResolveSubscriptions
            &&& second.1 == EffectView::Finish(Err(FeedError::RateLimitedExhausted))
            &&& second.0.phase == Phase::Error
        }),
{
}

/// A channel task never fails: a reply that brings no page, whether the
/// platform cannot be reached, answers with an error, or is rate limited
/// for the second time, ends the task with exactly the entries gathered so
/// far.
pub proof fn law_task_keeps_what_it_gathered(
    task: ChannelTaskView,
    reply: ReplyView,
    api_key: Seq<char>,
)
    requires
        match crate::executor::class_of(reply) {
            crate::executor::ReplyClass::Success => false,
            crate::executor::ReplyClass::RateLimited => task.executor.retried,
            _ => true,
        },
    ensures
        task_step(task, reply, api_key) == TaskStepView::Complete(task.collector.pager.items),
{
}

/// A channel task whose page request is rate limited for the first time
/// asks for the same page once more, after the backoff, and keeps what it
/// gathered.
pub proof fn law_task_retries_a_rate_limited_page(
    task: ChannelTaskView,
    body: Seq<char>,
    api_key: Seq<char>,
)
    requires
        !task.executor.retried,
    ensures
        task_step(
            task,
            ReplyView::Answered { status: crate::executor::TOO_MANY_REQUESTS, body },
            api_key,
        ) == (TaskStepView::Retry {
            after_seconds: task.executor.backoff_seconds,
            url: collector_url(task.collector, api_key),
            task: ChannelTaskView {
                collector: task.collector,
                executor: Executor { backoff_seconds: task.executor.backoff_seconds, retried: true },
            },
        }),
{
}

} // verus!
