use vstd::prelude::*;
use vstd::string::*;
use crate::error::FeedError;
use crate::executor::outcome_view;
use crate::json::{
    elements_of, items_of, json_document, json_member, json_string, member, parse, string_of,
};
use crate::text::{join_range, joined, optional_text, owned, texts};

verus! {

/// The largest number of channels that one call to the platform may ask
/// about.
pub const BATCH_SIZE: usize = 50;

/// The uploads playlist of a channel.
#[derive(Clone, Debug, PartialEq, Eq)]
pub struct ChannelUploads {
    /// The channel, where the platform named it.
    pub channel_id: Option<String>,
    pub playlist_id: String,
}

/// A [`ChannelUploads`] as mathematical values.
pub struct ChannelUploadsView {
    pub channel_id: Option<Seq<char>>,
    pub playlist_id: Seq<char>,
}

impl View for ChannelUploads {
    type V = ChannelUploadsView;

    open spec fn view(&self) -> ChannelUploadsView {
        ChannelUploadsView {
            channel_id: optional_text(self.channel_id),
            playlist_id: self.playlist_id@,
        }
    }
}

/// What a list of uploads playlists holds.
pub open spec fn uploads_views(uploads: Seq<ChannelUploads>) -> Seq<ChannelUploadsView> {
    uploads.map_values(|entry: ChannelUploads| entry@)
}

/// The address that asks for the details of the channels `channel_ids`.
pub open spec fn channels_url(channel_ids: Seq<Seq<char>>, api_key: Seq<char>) -> Seq<char> {
    "https://www.googleapis.com/youtube/v3/channels?part=contentDetails&id="@ + joined(
        channel_ids,
        ","@,
    ) + "&key="@ + api_key
}

/// The uploads playlist that a JSON value of a channels response names. A
/// channel without the uploads relation names none.
pub open spec fn uploads_of(value: serde_json::Value) -> Option<ChannelUploadsView> {
    match json_string(
        json_member(
            json_member(json_member(value, "contentDetails"@), "relatedPlaylists"@),
            "uploads"@,
        ),
    ) {
        Some(playlist_id) => Some(
            ChannelUploadsView { channel_id: json_string(json_member(value, "id"@)), playlist_id },
        ),
        None => None,
    }
}

/// The uploads playlists in the body of a channels response, in order, if
/// the body is a JSON document.
pub open spec fn uploads_in(body: Seq<char>) -> Option<Seq<ChannelUploadsView>> {
    match json_document(body) {
        Some(document) => Some(
            items_of(document).filter_map(|value: serde_json::Value| uploads_of(value)),
        ),
        None => None,
    }
}

/// What decoded uploads playlists hold.
pub open spec fn decoded_uploads(uploads: Option<Vec<ChannelUploads>>) -> Option<
    Seq<ChannelUploadsView>,
> {
    match uploads {
        Some(uploads) => Some(uploads_views(uploads@)),
        None => None,
    }
}

/// Decodes the body of a channels response into the uploads playlists it
/// names. `None` means that the body is no JSON document.
pub fn decode_uploads(body: &str) -> (uploads: Option<Vec<ChannelUploads>>)
    ensures
        decoded_uploads(uploads) == uploads_in(body@),
{
    match parse(body) {
        None => None,
        Some(document) => {
            let mut uploads: Vec<ChannelUploads> = Vec::new();
            match elements_of(member(&document, "items")) {
                None => {
                    proof {
                        assert(uploads_views(uploads@) =~= Seq::<ChannelUploadsView>::empty());
                    }
                },
                Some(elements) => {
                    let ghost pick = |value: serde_json::Value| uploads_of(value);
                    let mut next: usize = 0;
                    proof {
                        assert(elements@.take(0) =~= Seq::<serde_json::Value>::empty());
                        assert(uploads_views(uploads@) =~= Seq::<ChannelUploadsView>::empty());
                    }
                    while next < elements.len()
                        invariant
                            next <= elements.len(),
                            pick == |value: serde_json::Value| uploads_of(value),
                            uploads_views(uploads@) == elements@.take(next as int).filter_map(pick),
                        decreases elements.len() - next,
                    {
                        let ghost before = uploads@;
                        let value = &elements[next];
                        let found = string_of(
                            member(
                                member(member(value, "contentDetails"), "relatedPlaylists"),
                                "uploads",
                            ),
                        );
                        proof {
                            assert(elements@.take(next + 1).drop_last() =~= elements@.take(
                                next as int,
                            ));
                            assert(elements@.take(next + 1).last() == elements@[next as int]);
                        }
                        match found {
                            Some(playlist_id) => {
                                let entry = ChannelUploads {
                                    channel_id: owned(string_of(member(value, "id"))),
                                    playlist_id: String::from_str(playlist_id),
                                };
                                uploads.push(entry);
                                proof {
                                    assert(uploads_views(uploads@) =~= uploads_views(before)
                                        + seq![entry@]);
                                }
                            },
                            None => {},
                        }
                        next = next + 1;
                    }
                    proof {
                        assert(elements@.take(elements.len() as int) =~= elements@);
                    }
                },
            }
            Some(uploads)
        },
    }
}

/// The resolver of uploads playlists: the channels to resolve, how many of
/// them have been asked about, and the playlists found.
#[derive(Debug, PartialEq, Eq)]
pub struct PlaylistResolver {
    pub channel_ids: Vec<String>,
    pub asked: usize,
    pub found: Vec<ChannelUploads>,
}

/// A [`PlaylistResolver`] as mathematical values.
pub struct PlaylistResolverView {
    pub channel_ids: Seq<Seq<char>>,
    pub asked: nat,
    pub found: Seq<ChannelUploadsView>,
}

impl View for PlaylistResolver {
    type V = PlaylistResolverView;

    open spec fn view(&self) -> PlaylistResolverView {
        PlaylistResolverView {
            channel_ids: texts(self.channel_ids@),
            asked: self.asked as nat,
            found: uploads_views(self.found@),
        }
    }
}

impl PlaylistResolverView {
    /// Where the pending batch starts.
    pub open spec fn batch_start(self) -> nat {
        if self.asked <= self.channel_ids.len() {
            self.asked
        } else {
            self.channel_ids.len()
        }
    }

    /// Where the pending batch ends.
    pub open spec fn batch_end(self) -> nat {
        if self.asked + BATCH_SIZE <= self.channel_ids.len() {
            self.asked + BATCH_SIZE as nat
        } else {
            self.channel_ids.len()
        }
    }

    /// The channels that the pending call asks about.
    pub open spec fn batch(self) -> Seq<Seq<char>> {
        self.channel_ids.subrange(self.batch_start() as int, self.batch_end() as int)
    }

    /// The number of calls still to make, the pending one included.
    pub open spec fn calls_left(self) -> nat {
        ((self.channel_ids.len() - self.batch_start() + BATCH_SIZE - 1) / BATCH_SIZE as int) as nat
    }
}

/// What the caller does after a call of the resolver.
#[derive(Debug, PartialEq, Eq)]
pub enum PlaylistStep {
    /// Ask about the resolver's pending batch and hand the response to this
    /// resolver.
    Next(PlaylistResolver),
    /// All batches are answered: the playlists found, in order of arrival.
    Complete(Vec<ChannelUploads>),
    /// A call failed, and with it the resolution.
    Failed(FeedError),
}

/// A [`PlaylistStep`] as mathematical values.
pub enum PlaylistStepView {
    Next(PlaylistResolverView),
    Complete(Seq<ChannelUploadsView>),
    Failed(FeedError),
}

impl View for PlaylistStep {
    type V = PlaylistStepView;

    open spec fn view(&self) -> PlaylistStepView {
        match *self {
            PlaylistStep::Next(resolver) => PlaylistStepView::Next(resolver@),
            PlaylistStep::Complete(found) => PlaylistStepView::Complete(uploads_views(found@)),
            PlaylistStep::Failed(error) => PlaylistStepView::Failed(error),
        }
    }
}

/// How the resolution starts: with nothing to resolve it is complete at
/// once, otherwise the first batch is pending.
pub open spec fn begin(channel_ids: Seq<Seq<char>>) -> PlaylistStepView {
    if channel_ids.len() == 0 {
        PlaylistStepView::Complete(Seq::empty())
    } else {
        PlaylistStepView::Next(PlaylistResolverView { channel_ids, asked: 0, found: Seq::empty() })
    }
}

/// The resolver's rule. A failed call fails the resolution. An answer adds
/// the playlists it names; the resolution then is complete if the pending
/// batch was the last, and goes on with the next batch otherwise.
pub open spec fn playlist_step(
    resolver: PlaylistResolverView,
    response: Result<Seq<ChannelUploadsView>, FeedError>,
) -> PlaylistStepView {
    match response {
        Err(error) => PlaylistStepView::Failed(error),
        Ok(uploads) => {
            let found = resolver.found + uploads;
            if resolver.batch_end() >= resolver.channel_ids.len() {
                PlaylistStepView::Complete(found)
            } else {
                PlaylistStepView::Next(
                    PlaylistResolverView {
                        channel_ids: resolver.channel_ids,
                        asked: resolver.batch_end(),
                        found,
                    },
                )
            }
        },
    }
}

/// What a response of the channels call holds, as mathematical values.
pub open spec fn uploads_response_view(response: Result<Vec<ChannelUploads>, FeedError>) -> Result<
    Seq<ChannelUploadsView>,
    FeedError,
> {
    match response {
        Ok(uploads) => Ok(uploads_views(uploads@)),
        Err(error) => Err(error),
    }
}

/// The response that the outcome of a call carries: the playlists in its
/// body, or the call's error; a body that is no JSON document counts as a
/// transport failure.
pub open spec fn uploads_response_in(outcome: Result<Seq<char>, FeedError>) -> Result<
    Seq<ChannelUploadsView>,
    FeedError,
> {
    match outcome {
        Ok(body) => match uploads_in(body) {
            Some(uploads) => Ok(uploads),
            None => Err(FeedError::Transport),
        },
        Err(error) => Err(error),
    }
}

impl PlaylistResolver {
    /// Starts the resolution of `channel_ids`.
    pub fn start(channel_ids: Vec<String>) -> (first: PlaylistStep)
        ensures
            first@ == begin(texts(channel_ids@)),
    {
        if channel_ids.len() == 0 {
            let found: Vec<ChannelUploads> = Vec::new();
            proof {
                assert(uploads_views(found@) =~= Seq::<ChannelUploadsView>::empty());
            }
            PlaylistStep::Complete(found)
        } else {
            let resolver = PlaylistResolver { channel_ids, asked: 0, found: Vec::new() };
            proof {
                assert(uploads_views(resolver.found@) =~= Seq::<ChannelUploadsView>::empty());
            }
            PlaylistStep::Next(resolver)
        }
    }

    /// Where the pending batch ends.
    fn batch_end(&self) -> (end: usize)
        ensures
            end == self@.batch_end(),
            self@.batch_start() <= end <= self.channel_ids.len(),
    {
        let total = self.channel_ids.len();
        if self.asked < total && total - self.asked >= BATCH_SIZE {
            self.asked + BATCH_SIZE
        } else {
            total
        }
    }

    /// The address of the pending call.
    pub fn request_url(&self, api_key: &str) -> (url: String)
        ensures
            url@ == channels_url(self@.batch(), api_key@),
    {
        let total = self.channel_ids.len();
        let start = if self.asked <= total {
            self.asked
        } else {
            total
        };
        let end = self.batch_end();
        let ids = join_range(&self.channel_ids, start, end, ",");
        proof {
            assert(texts(self.channel_ids@.subrange(start as int, end as int)) =~= self@.batch());
        }
        let mut url = String::from_str(
            "https://www.googleapis.com/youtube/v3/channels?part=contentDetails&id=",
        );
        url.append(ids.as_str());
        url.append("&key=");
        url.append(api_key);
        url
    }

    /// Takes the response to the pending call and says what comes next.
    pub fn accept(self, response: Result<Vec<ChannelUploads>, FeedError>) -> (next: PlaylistStep)
        ensures
            next@ == playlist_step(self@, uploads_response_view(response)),
    {
        let end = self.batch_end();
        let total = self.channel_ids.len();
        let ghost before = self.found@;
        match response {
            Err(error) => PlaylistStep::Failed(error),
            Ok(uploads) => {
                let mut uploads = uploads;
                let ghost fresh = uploads@;
                let mut found = self.found;
                found.append(&mut uploads);
                proof {
                    assert(uploads_views(found@) =~= uploads_views(before) + uploads_views(fresh));
                }
                if end >= total {
                    PlaylistStep::Complete(found)
                } else {
                    PlaylistStep::Next(
                        PlaylistResolver { channel_ids: self.channel_ids, asked: end, found },
                    )
                }
            },
        }
    }

    /// Takes the outcome of the pending call, with the body of the response
    /// still undecoded, and says what comes next.
    pub fn accept_outcome(self, outcome: Result<String, FeedError>) -> (next: PlaylistStep)
        ensures
            next@ == playlist_step(self@, uploads_response_in(outcome_view(outcome))),
    {
        let response = match outcome {
            Ok(body) => match decode_uploads(body.as_str()) {
                Some(uploads) => Ok(uploads),
                None => Err(FeedError::Transport),
            },
            Err(error) => Err(error),
        };
        self.accept(response)
    }
}

/// Where a resolution stands after some responses, and how many calls were
/// made to get there.
pub struct PlaylistRun {
    pub last: PlaylistStepView,
    pub calls: nat,
}

/// Runs the resolver against the responses that the platform gives to the
/// successive calls. Responses behind the one that ends the resolution are
/// never asked for.
pub open spec fn playlist_run(
    resolver: PlaylistResolverView,
    responses: Seq<Result<Seq<ChannelUploadsView>, FeedError>>,
) -> PlaylistRun
    decreases responses.len(),
{
    if responses.len() == 0 {
        PlaylistRun { last: PlaylistStepView::Next(resolver), calls: 0 }
    } else {
        match playlist_step(resolver, responses[0]) {
            PlaylistStepView::Next(next) => {
                let rest = playlist_run(next, responses.drop_first());
                PlaylistRun { last: rest.last, calls: rest.calls + 1 }
            },
            last => PlaylistRun { last, calls: 1 },
        }
    }
}

/// The playlists that some answers name, answer after answer.
pub open spec fn all_uploads(answers: Seq<Seq<ChannelUploadsView>>) -> Seq<ChannelUploadsView>
    decreases answers.len(),
{
    if answers.len() == 0 {
        Seq::empty()
    } else {
        answers[0] + all_uploads(answers.drop_first())
    }
}

/// The responses that deliver `answers` one by one.
pub open spec fn answered(answers: Seq<Seq<ChannelUploadsView>>) -> Seq<
    Result<Seq<ChannelUploadsView>, FeedError>,
> {
    answers.map_values(
        |uploads: Seq<ChannelUploadsView>| Ok::<Seq<ChannelUploadsView>, FeedError>(uploads),
    )
}

/// The pending batch of a resolver that still has channels to ask about
/// holds at least one channel and at most `BATCH_SIZE`, starts where the
/// channels asked about end, and the next batch starts where it ends.
pub proof fn law_batch_is_bounded(resolver: PlaylistResolverView)
    requires
        resolver.asked < resolver.channel_ids.len(),
    ensures
        1 <= resolver.batch().len() <= BATCH_SIZE,
        resolver.channel_ids.subrange(0, resolver.asked as int) + resolver.batch()
            == resolver.channel_ids.subrange(0, resolver.batch_end() as int),
        resolver.calls_left() >= 1,
{
    assert(resolver.channel_ids.subrange(0, resolver.asked as int) + resolver.batch()
        =~= resolver.channel_ids.subrange(0, resolver.batch_end() as int));
}

/// A resolver whose calls are all answered makes one call for each batch
/// that is left, no more and no fewer, and ends with the playlists of all
/// the answers, in order, behind those it held before.
pub proof fn law_every_batch_is_asked_once(
    resolver: PlaylistResolverView,
    answers: Seq<Seq<ChannelUploadsView>>,
)
    requires
        resolver.asked < resolver.channel_ids.len(),
        answers.len() == resolver.calls_left(),
    ensures
        playlist_run(resolver, answered(answers)) == (PlaylistRun {
            last: PlaylistStepView::Complete(resolver.found + all_uploads(answers)),
            calls: resolver.calls_left(),
        }),
    decreases answers.len(),
{
    let responses = answered(answers);
    assert(responses[0] == Ok::<Seq<ChannelUploadsView>, FeedError>(answers[0]));
    assert(responses.drop_first() =~= answered(answers.drop_first()));
    if resolver.batch_end() >= resolver.channel_ids.len() {
        assert(resolver.calls_left() == 1);
        assert(all_uploads(answers.drop_first()) =~= Seq::<ChannelUploadsView>::empty());
        assert(resolver.found + all_uploads(answers) =~= resolver.found + answers[0]);
    } else {
        let next = PlaylistResolverView {
            channel_ids: resolver.channel_ids,
            asked: resolver.batch_end(),
            found: resolver.found + answers[0],
        };
        assert(next.calls_left() + 1 == resolver.calls_left());
        law_every_batch_is_asked_once(next, answers.drop_first());
        assert(next.found + all_uploads(answers.drop_first()) =~= resolver.found + all_uploads(
            answers,
        ));
    }
}

/// A failed call ends the resolution with the call's own error, and no
/// further call is made.
pub proof fn law_failed_call_is_fatal(
    resolver: PlaylistResolverView,
    error: FeedError,
    further: Seq<Result<Seq<ChannelUploadsView>, FeedError>>,
)
    ensures
        playlist_run(resolver, seq![Err(error)] + further) == (PlaylistRun {
            last: PlaylistStepView::Failed(error),
            calls: 1,
        }),
{
    let responses = seq![Err::<Seq<ChannelUploadsView>, FeedError>(error)] + further;
    assert(responses[0] == Err::<Seq<ChannelUploadsView>, FeedError>(error));
}

} // verus!
