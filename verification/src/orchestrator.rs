use vstd::prelude::*;
use crate::error::FeedError;
use crate::feed::{
    concatenated, is_merged_feed, law_every_list_has_its_merge, law_merge_keeps_every_entry, merge,
    merged, newest_first,
};
use crate::models::{SavedToken, SavedTokenView, Timestamp, Video, REFRESH_MARGIN_SECONDS};
use crate::playlists::{uploads_views, ChannelUploads, ChannelUploadsView};
use crate::text::texts;

verus! {

/// Where an aggregation stands.
///
/// The merge of the collectors' lists needs no outside work, so it happens
/// within the step that takes the lists: the aggregation goes from
/// `FanOutCollect` straight to `Done`.
#[derive(Clone, Copy, Debug, PartialEq, Eq, Structural)]
pub enum Phase {
    /// Nothing has happened yet.
    Start,
    /// The credential is stale; its refresh is under way.
    CredentialCheck,
    /// The followed channels are being listed.
    ResolveSubscriptions,
    /// The uploads playlists of the channels are being looked up.
    ResolvePlaylists,
    /// One collector per playlist is at work.
    FanOutCollect,
    /// The feed was handed out.
    Done,
    /// The aggregation failed.
    Error,
}

/// What happened outside since the last step.
#[derive(Debug, PartialEq, Eq)]
pub enum Event {
    /// A request arrived with this credential, at this instant.
    Begin { credential: SavedToken, now: Timestamp },
    /// The identity provider answered the refresh: with a new credential, or
    /// not at all.
    Refreshed(Option<SavedToken>),
    /// The subscription resolver came to its end.
    Subscriptions(Result<Vec<String>, FeedError>),
    /// The playlist resolver came to its end.
    Playlists(Result<Vec<ChannelUploads>, FeedError>),
    /// Every collector came to its end; the lists are in the order of the
    /// playlists that were handed out.
    Collected(Vec<Vec<Video>>),
}

/// An [`Event`] as mathematical values.
pub enum EventView {
    Begin { credential: SavedTokenView, now: Timestamp },
    Refreshed(Option<SavedTokenView>),
    Subscriptions(Result<Seq<Seq<char>>, FeedError>),
    Playlists(Result<Seq<ChannelUploadsView>, FeedError>),
    Collected(Seq<Vec<Video>>),
}

impl View for Event {
    type V = EventView;

    open spec fn view(&self) -> EventView {
        match *self {
            Event::Begin { credential, now } => EventView::Begin { credential: credential@, now },
            Event::Refreshed(Some(credential)) => EventView::Refreshed(Some(credential@)),
            Event::Refreshed(None) => EventView::Refreshed(None),
            Event::Subscriptions(Ok(channel_ids)) => EventView::Subscriptions(
                Ok(texts(channel_ids@)),
            ),
            Event::Subscriptions(Err(error)) => EventView::Subscriptions(Err(error)),
            Event::Playlists(Ok(uploads)) => EventView::Playlists(Ok(uploads_views(uploads@))),
            Event::Playlists(Err(error)) => EventView::Playlists(Err(error)),
            Event::Collected(lists) => EventView::Collected(lists@),
        }
    }
}

/// What the caller does next.
#[derive(Debug, PartialEq, Eq)]
pub enum Command {
    /// Ask the identity provider for a new credential and report
    /// `Event::Refreshed`.
    Refresh { refresh_token: String },
    /// Resolve the channels that the owner of `credential` follows and
    /// report `Event::Subscriptions`. This is the credential in use from here
    /// on; where it is new, it is the caller's to keep.
    ResolveSubscriptions { credential: SavedToken },
    /// Resolve the uploads playlists of these channels and report
    /// `Event::Playlists`.
    ResolvePlaylists { channel_ids: Vec<String> },
    /// Run one collector per playlist, wait for all of them and report
    /// `Event::Collected` with their lists in this order.
    FanOut { playlist_ids: Vec<String> },
    /// The aggregation is over: the feed, or why there is none.
    Finish(Result<Vec<Video>, FeedError>),
}

/// A [`Command`] as mathematical values.
pub enum CommandView {
    Refresh { refresh_token: Seq<char> },
    ResolveSubscriptions { credential: SavedTokenView },
    ResolvePlaylists { channel_ids: Seq<Seq<char>> },
    FanOut { playlist_ids: Seq<Seq<char>> },
    Finish(Result<Seq<Video>, FeedError>),
}

impl View for Command {
    type V = CommandView;

    open spec fn view(&self) -> CommandView {
        match *self {
            Command::Refresh { refresh_token } => CommandView::Refresh {
                refresh_token: refresh_token@,
            },
            Command::ResolveSubscriptions { credential } => CommandView::ResolveSubscriptions {
                credential: credential@,
            },
            Command::ResolvePlaylists { channel_ids } => CommandView::ResolvePlaylists {
                channel_ids: texts(channel_ids@),
            },
            Command::FanOut { playlist_ids } => CommandView::FanOut {
                playlist_ids: texts(playlist_ids@),
            },
            Command::Finish(Ok(feed)) => CommandView::Finish(Ok(feed@)),
            Command::Finish(Err(error)) => CommandView::Finish(Err(error)),
        }
    }
}

/// The playlists of a list of uploads, in order.
pub open spec fn playlist_ids_of(uploads: Seq<ChannelUploadsView>) -> Seq<Seq<char>> {
    uploads.map_values(|entry: ChannelUploadsView| entry.playlist_id)
}

/// The step that ends the aggregation in failure with `error`.
pub open spec fn failure(error: FeedError) -> (Phase, CommandView) {
    (Phase::Error, CommandView::Finish(Err(error)))
}

/// The step that ends the aggregation in success with an empty feed.
pub open spec fn empty_feed() -> (Phase, CommandView) {
    (Phase::Done, CommandView::Finish(Ok(Seq::<Video>::empty())))
}

/// The step that turns away an event that the phase does not wait for:
/// `Done` stays `Done`, every other phase ends in `Error`, and the caller is
/// told `OutOfSequence`.
pub open spec fn rejection(phase: Phase) -> (Phase, CommandView) {
    if phase == Phase::Done {
        (Phase::Done, CommandView::Finish(Err(FeedError::OutOfSequence)))
    } else {
        failure(FeedError::OutOfSequence)
    }
}

/// The orchestrator's rule: the phase and the command that follow when
/// `event` arrives in `phase`, with `margin` as the refresh margin.
///
/// - At the start, a stale credential is refreshed first; any other goes
///   straight to the resolution of the subscriptions.
/// - A refresh that fails is fatal (`Unauthorized`).
/// - No subscriptions, or no uploads playlist, end the aggregation with an
///   empty feed; a failure of either resolution is fatal.
/// - The collectors' lists are merged into the feed, whatever they hold.
/// - `Done` and `Error` are final, and an event that the phase does not wait
///   for is turned away.
pub open spec fn react(phase: Phase, margin: u64, event: EventView) -> (Phase, CommandView) {
    match (phase, event) {
        (Phase::Start, EventView::Begin { credential, now }) => if credential.is_stale(
            now,
            margin,
        ) {
            (
                Phase::CredentialCheck,
                CommandView::Refresh { refresh_token: credential.refresh_token.unwrap() },
            )
        } else {
            (Phase::ResolveSubscriptions, CommandView::ResolveSubscriptions { credential })
        },
        (Phase::CredentialCheck, EventView::Refreshed(Some(credential))) => (
            Phase::ResolveSubscriptions,
            CommandView::ResolveSubscriptions { credential },
        ),
        (Phase::CredentialCheck, EventView::Refreshed(None)) => failure(FeedError::Unauthorized),
        (Phase::ResolveSubscriptions, EventView::Subscriptions(Ok(channel_ids))) => if channel_ids.len()
            == 0 {
            empty_feed()
        } else {
            (Phase::ResolvePlaylists, CommandView::ResolvePlaylists { channel_ids })
        },
        (Phase::ResolveSubscriptions, EventView::Subscriptions(Err(error))) => failure(error),
        (Phase::ResolvePlaylists, EventView::Playlists(Ok(uploads))) => if uploads.len() == 0 {
            empty_feed()
        } else {
            (
                Phase::FanOutCollect,
                CommandView::FanOut { playlist_ids: playlist_ids_of(uploads) },
            )
        },
        (Phase::ResolvePlaylists, EventView::Playlists(Err(error))) => failure(error),
        (Phase::FanOutCollect, EventView::Collected(lists)) => (
            Phase::Done,
            CommandView::Finish(Ok(merged(concatenated(lists)))),
        ),
        _ => rejection(phase),
    }
}

/// The coordinator of one aggregation.
#[derive(Clone, Copy, Debug, PartialEq, Eq, Structural)]
pub struct Orchestrator {
    pub phase: Phase,
    /// How many seconds before its expiry a credential counts as stale.
    pub refresh_margin: u64,
}

fn playlist_ids(uploads: &Vec<ChannelUploads>) -> (ids: Vec<String>)
    ensures
        texts(ids@) == playlist_ids_of(uploads_views(uploads@)),
{
    let mut ids: Vec<String> = Vec::new();
    let mut next: usize = 0;
    while next < uploads.len()
        invariant
            next <= uploads.len(),
            texts(ids@) =~= playlist_ids_of(uploads_views(uploads@)).take(next as int),
        decreases uploads.len() - next,
    {
        let ghost before = ids@;
        let id = uploads[next].playlist_id.clone();
        ids.push(id);
        proof {
            assert(texts(ids@) =~= texts(before).push(id@));
        }
        next = next + 1;
    }
    proof {
        let all = playlist_ids_of(uploads_views(uploads@));
        assert(all.take(uploads.len() as int) =~= all);
    }
    ids
}

impl Orchestrator {
    /// An orchestrator at the start, with the default refresh margin.
    pub fn new() -> (orchestrator: Orchestrator)
        ensures
            orchestrator == (Orchestrator {
                phase: Phase::Start,
                refresh_margin: REFRESH_MARGIN_SECONDS,
            }),
    {
        Orchestrator { phase: Phase::Start, refresh_margin: REFRESH_MARGIN_SECONDS }
    }

    /// An orchestrator at the start, with this refresh margin.
    pub fn with_refresh_margin(refresh_margin: u64) -> (orchestrator: Orchestrator)
        ensures
            orchestrator == (Orchestrator { phase: Phase::Start, refresh_margin }),
    {
        Orchestrator { phase: Phase::Start, refresh_margin }
    }

    /// Whether the aggregation is over.
    pub fn is_terminal(&self) -> (over: bool)
        ensures
            over == (self.phase == Phase::Done || self.phase == Phase::Error),
    {
        match self.phase {
            Phase::Done => true,
            Phase::Error => true,
            _ => false,
        }
    }

    /// Turns away an event that the phase does not wait for.
    pub fn reject(self) -> (next: (Orchestrator, Command))
        ensures
            next.0.refresh_margin == self.refresh_margin,
            (next.0.phase, next.1@) == rejection(self.phase),
    {
        let phase = match self.phase {
            Phase::Done => Phase::Done,
            _ => Phase::Error,
        };
        self.go(phase, Command::Finish(Err(FeedError::OutOfSequence)))
    }

    fn fail(self, error: FeedError) -> (next: (Orchestrator, Command))
        ensures
            next.0.refresh_margin == self.refresh_margin,
            (next.0.phase, next.1@) == failure(error),
    {
        self.go(Phase::Error, Command::Finish(Err(error)))
    }

    fn finish_empty(self) -> (next: (Orchestrator, Command))
        ensures
            next.0.refresh_margin == self.refresh_margin,
            (next.0.phase, next.1@) == empty_feed(),
    {
        let feed: Vec<Video> = Vec::new();
        self.go(Phase::Done, Command::Finish(Ok(feed)))
    }

    fn go(self, phase: Phase, command: Command) -> (next: (Orchestrator, Command))
        ensures
            next.0 == (Orchestrator { phase, refresh_margin: self.refresh_margin }),
            next.1 == command,
    {
        (Orchestrator { phase, refresh_margin: self.refresh_margin }, command)
    }

    /// Takes an event and says where the aggregation stands thereafter and
    /// what the caller does next.
    pub fn advance(self, event: Event) -> (next: (Orchestrator, Command))
        ensures
            next.0.refresh_margin == self.refresh_margin,
            (next.0.phase, next.1@) == react(self.phase, self.refresh_margin, event@),
    {
        match self.phase {
            Phase::Start => match event {
                Event::Begin { credential, now } => {
                    match credential.refresh_token_if_stale(&now, self.refresh_margin) {
                        Some(refresh_token) => self.go(
                            Phase::CredentialCheck,
                            Command::Refresh { refresh_token },
                        ),
                        None => self.go(
                            Phase::ResolveSubscriptions,
                            Command::ResolveSubscriptions { credential },
                        ),
                    }
                },
                _ => self.reject(),
            },
            Phase::CredentialCheck => match event {
                Event::Refreshed(Some(credential)) => self.go(
                    Phase::ResolveSubscriptions,
                    Command::ResolveSubscriptions { credential },
                ),
                Event::Refreshed(None) => self.fail(FeedError::Unauthorized),
                _ => self.reject(),
            },
            Phase::ResolveSubscriptions => match event {
                Event::Subscriptions(Ok(channel_ids)) => {
                    if channel_ids.len() == 0 {
                        self.finish_empty()
                    } else {
                        self.go(Phase::ResolvePlaylists, Command::ResolvePlaylists { channel_ids })
                    }
                },
                Event::Subscriptions(Err(error)) => self.fail(error),
                _ => self.reject(),
            },
            Phase::ResolvePlaylists => match event {
                Event::Playlists(Ok(uploads)) => {
                    if uploads.len() == 0 {
                        self.finish_empty()
                    } else {
                        let playlist_ids = playlist_ids(&uploads);
                        self.go(Phase::FanOutCollect, Command::FanOut { playlist_ids })
                    }
                },
                Event::Playlists(Err(error)) => self.fail(error),
                _ => self.reject(),
            },
            Phase::FanOutCollect => match event {
                Event::Collected(lists) => {
                    let feed = merge(lists);
                    self.go(Phase::Done, Command::Finish(Ok(feed)))
                },
                _ => self.reject(),
            },
            Phase::Done => self.reject(),
            Phase::Error => self.reject(),
        }
    }
}

/// Whenever a feed is handed out, it runs from the newest entry to the
/// oldest, and `Done` is the phase that hands it out.
pub proof fn law_feed_is_sorted(phase: Phase, margin: u64, event: EventView)
    requires
        react(phase, margin, event).1 matches CommandView::Finish(Ok(_)),
    ensures
        react(phase, margin, event).0 == Phase::Done,
        react(phase, margin, event).1 matches CommandView::Finish(Ok(feed)) && newest_first(feed),
{
    match (phase, event) {
        (Phase::FanOutCollect, EventView::Collected(lists)) => {
            law_every_list_has_its_merge(concatenated(lists));
        },
        _ => {},
    }
}

/// The collectors cannot fail the aggregation: whatever lists they hand
/// back, the aggregation ends in `Done` with the merge of the lists, which
/// holds the entries of all the lists and nothing else.
pub proof fn law_collectors_cannot_fail(margin: u64, lists: Seq<Vec<Video>>)
    ensures
        react(Phase::FanOutCollect, margin, EventView::Collected(lists)) == (
            Phase::Done,
            CommandView::Finish(Ok(merged(concatenated(lists)))),
        ),
        is_merged_feed(merged(concatenated(lists)), concatenated(lists)),
        merged(concatenated(lists)).to_multiset() == concatenated(lists).to_multiset(),
{
    law_every_list_has_its_merge(concatenated(lists));
    law_merge_keeps_every_entry(merged(concatenated(lists)), concatenated(lists));
}

/// `Done` and `Error` are final: no event leads out of them, and none makes
/// them hand out a feed.
pub proof fn law_terminal_phases_are_final(phase: Phase, margin: u64, event: EventView)
    requires
        phase == Phase::Done || phase == Phase::Error,
    ensures
        react(phase, margin, event) == (
            phase,
            CommandView::Finish(Err(FeedError::OutOfSequence)),
        ),
{
}

/// A failure is told apart from an empty feed: a step out of a phase that
/// was still at work ends in `Error` exactly when it hands out an error, and
/// in `Done` exactly when it hands out a feed.
pub proof fn law_failure_is_not_an_empty_feed(phase: Phase, margin: u64, event: EventView)
    requires
        phase != Phase::Done,
    ensures
        react(phase, margin, event).0 == Phase::Error <==> react(phase, margin, event).1 matches CommandView::Finish(
            Err(_),
        ),
        react(phase, margin, event).0 == Phase::Done <==> react(phase, margin, event).1 matches CommandView::Finish(
            Ok(_),
        ),
{
}

} // verus!
