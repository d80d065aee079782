use vstd::prelude::*;
use vstd::string::*;
use crate::json::{
    elements_of, first_item, first_item_of, items_of, json_document, json_member, json_string,
    member, parse, string_of,
};
use crate::text::{concat4, copy_or, optional_text, owned, text_or};

verus! {

/// A video of a channel, with what the platform tells about it.
#[derive(Clone, Debug, PartialEq, Eq)]
pub struct Video {
    pub video_id: String,
    pub title: String,
    pub description: String,
    pub thumbnail: String,
    pub channel_title: String,
    pub published_at: String,
    pub duration: String,
    pub view_count: String,
}

/// A [`Video`] as mathematical values.
pub struct VideoView {
    pub video_id: Seq<char>,
    pub title: Seq<char>,
    pub description: Seq<char>,
    pub thumbnail: Seq<char>,
    pub channel_title: Seq<char>,
    pub published_at: Seq<char>,
    pub duration: Seq<char>,
    pub view_count: Seq<char>,
}

impl View for Video {
    type V = VideoView;

    open spec fn view(&self) -> VideoView {
        VideoView {
            video_id: self.video_id@,
            title: self.title@,
            description: self.description@,
            thumbnail: self.thumbnail@,
            channel_title: self.channel_title@,
            published_at: self.published_at@,
            duration: self.duration@,
            view_count: self.view_count@,
        }
    }
}

/// What a list of videos holds.
pub open spec fn video_views(videos: Seq<Video>) -> Seq<VideoView> {
    videos.map_values(|video: Video| video@)
}

/// One upload of a channel as its playlist lists it, before its statistics
/// are known: every field but the id may be missing.
#[derive(Clone, Debug, PartialEq, Eq)]
pub struct ListedVideo {
    pub video_id: String,
    pub title: Option<String>,
    pub description: Option<String>,
    pub thumbnail: Option<String>,
    pub channel_title: Option<String>,
    pub published_at: Option<String>,
}

/// A [`ListedVideo`] as mathematical values.
pub struct ListedVideoView {
    pub video_id: Seq<char>,
    pub title: Option<Seq<char>>,
    pub description: Option<Seq<char>>,
    pub thumbnail: Option<Seq<char>>,
    pub channel_title: Option<Seq<char>>,
    pub published_at: Option<Seq<char>>,
}

impl View for ListedVideo {
    type V = ListedVideoView;

    open spec fn view(&self) -> ListedVideoView {
        ListedVideoView {
            video_id: self.video_id@,
            title: optional_text(self.title),
            description: optional_text(self.description),
            thumbnail: optional_text(self.thumbnail),
            channel_title: optional_text(self.channel_title),
            published_at: optional_text(self.published_at),
        }
    }
}

/// What a list of uploads holds.
pub open spec fn listed_views(listed: Seq<ListedVideo>) -> Seq<ListedVideoView> {
    listed.map_values(|upload: ListedVideo| upload@)
}

/// Why the videos of a channel could not be listed.
#[derive(Clone, Copy, Debug, PartialEq, Eq, Structural)]
pub enum LookupError {
    /// A call failed, or its body was no JSON document.
    Transport,
    /// The search named no channel.
    ChannelNotFound,
    /// The channel has no uploads playlist.
    PlaylistNotFound,
    /// The playlist lists no video.
    NoVideos,
}

/// The address that searches for the channel `query`.
pub open spec fn channel_search_url(query: Seq<char>, api_key: Seq<char>) -> Seq<char> {
    "https://www.googleapis.com/youtube/v3/search?part=snippet&type=channel&q="@ + query + "&key="@
        + api_key
}

/// The address that asks for the details of the channel `channel_id`.
pub open spec fn channel_details_url(channel_id: Seq<char>, api_key: Seq<char>) -> Seq<char> {
    "https://www.googleapis.com/youtube/v3/channels?part=contentDetails&id="@ + channel_id
        + "&key="@ + api_key
}

/// The address that lists the newest uploads of the playlist
/// `playlist_id`.
pub open spec fn uploads_url(playlist_id: Seq<char>, api_key: Seq<char>) -> Seq<char> {
    "https://www.googleapis.com/youtube/v3/playlistItems?part=snippet&playlistId="@ + playlist_id
        + "&maxResults=20&key="@ + api_key
}

/// The address that asks for the statistics of the video `video_id`.
pub open spec fn statistics_url(video_id: Seq<char>, api_key: Seq<char>) -> Seq<char> {
    "https://www.googleapis.com/youtube/v3/videos?part=contentDetails,statistics&id="@ + video_id
        + "&key="@ + api_key
}

/// The channel that the first result of a search names, if there is one.
pub open spec fn found_channel(document: serde_json::Value) -> Option<Seq<char>> {
    match first_item_of(document) {
        Some(first) => json_string(json_member(json_member(first, "id"@), "channelId"@)),
        None => None,
    }
}

/// The uploads playlist that the first channel of a channels response
/// names, if there is one.
pub open spec fn found_uploads(document: serde_json::Value) -> Option<Seq<char>> {
    match first_item_of(document) {
        Some(first) => json_string(
            json_member(
                json_member(json_member(first, "contentDetails"@), "relatedPlaylists"@),
                "uploads"@,
            ),
        ),
        None => None,
    }
}

/// The upload that a JSON value of a playlist page stands for. A value
/// without a video id stands for none.
pub open spec fn listed_video_of(value: serde_json::Value) -> Option<ListedVideoView> {
    let snippet = json_member(value, "snippet"@);
    match json_string(json_member(json_member(snippet, "resourceId"@), "videoId"@)) {
        Some(video_id) => Some(
            ListedVideoView {
                video_id,
                title: json_string(json_member(snippet, "title"@)),
                description: json_string(json_member(snippet, "description"@)),
                thumbnail: json_string(
                    json_member(json_member(json_member(snippet, "thumbnails"@), "medium"@), "url"@),
                ),
                channel_title: json_string(json_member(snippet, "channelTitle"@)),
                published_at: json_string(json_member(snippet, "publishedAt"@)),
            },
        ),
        None => None,
    }
}

/// The uploads that a playlist page lists, in order.
pub open spec fn listed_videos(document: serde_json::Value) -> Seq<ListedVideoView> {
    items_of(document).filter_map(|value: serde_json::Value| listed_video_of(value))
}

/// The duration that a statistics response gives for its first video, if it
/// gives one.
pub open spec fn found_duration(document: serde_json::Value) -> Option<Seq<char>> {
    match first_item_of(document) {
        Some(first) => json_string(json_member(json_member(first, "contentDetails"@), "duration"@)),
        None => None,
    }
}

/// The view count that a statistics response gives for its first video, if
/// it gives one.
pub open spec fn found_view_count(document: serde_json::Value) -> Option<Seq<char>> {
    match first_item_of(document) {
        Some(first) => json_string(json_member(json_member(first, "statistics"@), "viewCount"@)),
        None => None,
    }
}

/// The video that an upload makes once its statistics are known, with what
/// stands in for everything that is missing.
pub open spec fn detailed(
    upload: ListedVideoView,
    duration: Option<Seq<char>>,
    view_count: Option<Seq<char>>,
) -> VideoView {
    VideoView {
        video_id: upload.video_id,
        title: text_or(upload.title, "Titre inconnu"@),
        description: text_or(upload.description, Seq::empty()),
        thumbnail: text_or(upload.thumbnail, "https://via.placeholder.com/320x180"@),
        channel_title: text_or(upload.channel_title, "Chaîne inconnue"@),
        published_at: text_or(upload.published_at, Seq::empty()),
        duration: text_or(duration, "PT0S"@),
        view_count: text_or(view_count, "0"@),
    }
}

/// Makes the video of an upload from its statistics, filling in what is
/// missing.
pub fn make_video(upload: &ListedVideo, duration: &Option<String>, view_count: &Option<String>) -> (video:
    Video)
    ensures
        video@ == detailed(upload@, optional_text(*duration), optional_text(*view_count)),
{
    let description = match &upload.description {
        Some(text) => text.clone(),
        None => String::new(),
    };
    let published_at = match &upload.published_at {
        Some(text) => text.clone(),
        None => String::new(),
    };
    Video {
        video_id: upload.video_id.clone(),
        title: copy_or(&upload.title, "Titre inconnu"),
        description,
        thumbnail: copy_or(&upload.thumbnail, "https://via.placeholder.com/320x180"),
        channel_title: copy_or(&upload.channel_title, "Chaîne inconnue"),
        published_at,
        duration: copy_or(duration, "PT0S"),
        view_count: copy_or(view_count, "0"),
    }
}

/// Where the listing of a channel's videos stands: which response is
/// awaited.
#[derive(Debug, PartialEq, Eq)]
pub enum Lookup {
    /// The result of the channel search.
    Search,
    /// The details of the channel found.
    Channel,
    /// The page of the channel's uploads playlist.
    Playlist,
    /// The statistics of `uploads[next]`; `videos` are those made of the
    /// uploads before it.
    Statistics { uploads: Vec<ListedVideo>, next: usize, videos: Vec<Video> },
}

/// A [`Lookup`] as mathematical values.
pub enum LookupView {
    Search,
    Channel,
    Playlist,
    Statistics { uploads: Seq<ListedVideoView>, next: nat, videos: Seq<VideoView> },
}

impl View for Lookup {
    type V = LookupView;

    open spec fn view(&self) -> LookupView {
        match *self {
            Lookup::Search => LookupView::Search,
            Lookup::Channel => LookupView::Channel,
            Lookup::Playlist => LookupView::Playlist,
            Lookup::Statistics { uploads, next, videos } => LookupView::Statistics {
                uploads: listed_views(uploads@),
                next: next as nat,
                videos: video_views(videos@),
            },
        }
    }
}

/// What the caller does next.
#[derive(Debug, PartialEq, Eq)]
pub enum LookupStep {
    /// Get `url` and hand the body of the response to `then`.
    Request { url: String, then: Lookup },
    /// The listing is over: the videos, or why there are none.
    Finish(Result<Vec<Video>, LookupError>),
}

/// A [`LookupStep`] as mathematical values.
pub enum LookupStepView {
    Request { url: Seq<char>, then: LookupView },
    Finish(Result<Seq<VideoView>, LookupError>),
}

impl View for LookupStep {
    type V = LookupStepView;

    open spec fn view(&self) -> LookupStepView {
        match *self {
            LookupStep::Request { url, then } => LookupStepView::Request { url: url@, then: then@ },
            LookupStep::Finish(Ok(videos)) => LookupStepView::Finish(Ok(video_views(videos@))),
            LookupStep::Finish(Err(error)) => LookupStepView::Finish(Err(error)),
        }
    }
}

/// How the listing starts: with the search for the channel.
pub open spec fn begin(query: Seq<char>, api_key: Seq<char>) -> LookupStepView {
    LookupStepView::Request { url: channel_search_url(query, api_key), then: LookupView::Search }
}

/// What the listing reads in the response it awaits.
#[derive(Debug, PartialEq, Eq)]
pub enum Answer {
    /// The channel that the search found, if it found one.
    Channel(Option<String>),
    /// The uploads playlist of the channel, if it has one.
    Uploads(Option<String>),
    /// The uploads that the playlist lists.
    Listing(Vec<ListedVideo>),
    /// The statistics of one upload, as far as they are given.
    Statistics { duration: Option<String>, view_count: Option<String> },
}

/// An [`Answer`] as mathematical values.
pub enum AnswerView {
    Channel(Option<Seq<char>>),
    Uploads(Option<Seq<char>>),
    Listing(Seq<ListedVideoView>),
    Statistics { duration: Option<Seq<char>>, view_count: Option<Seq<char>> },
}

impl View for Answer {
    type V = AnswerView;

    open spec fn view(&self) -> AnswerView {
        match *self {
            Answer::Channel(channel_id) => AnswerView::Channel(optional_text(channel_id)),
            Answer::Uploads(playlist_id) => AnswerView::Uploads(optional_text(playlist_id)),
            Answer::Listing(uploads) => AnswerView::Listing(listed_views(uploads@)),
            Answer::Statistics { duration, view_count } => AnswerView::Statistics {
                duration: optional_text(duration),
                view_count: optional_text(view_count),
            },
        }
    }
}

/// What an optional answer holds.
pub open spec fn answer_view(answer: Option<Answer>) -> Option<AnswerView> {
    match answer {
        Some(answer) => Some(answer@),
        None => None,
    }
}

/// What the listing, being where it is, reads in a JSON document.
pub open spec fn answer_of(lookup: LookupView, document: serde_json::Value) -> AnswerView {
    match lookup {
        LookupView::Search => AnswerView::Channel(found_channel(document)),
        LookupView::Channel => AnswerView::Uploads(found_uploads(document)),
        LookupView::Playlist => AnswerView::Listing(listed_videos(document)),
        LookupView::Statistics { .. } => AnswerView::Statistics {
            duration: found_duration(document),
            view_count: found_view_count(document),
        },
    }
}

/// What the listing reads in the body of a response; nothing, if the call
/// failed or the body is no JSON document.
pub open spec fn answer_in(lookup: LookupView, body: Option<Seq<char>>) -> Option<AnswerView> {
    match body {
        Some(body) => match json_document(body) {
            Some(document) => Some(answer_of(lookup, document)),
            None => None,
        },
        None => None,
    }
}

/// What follows the statistics of `uploads[next]`: the video made of that
/// upload joins `videos`; then the statistics of the next upload are asked
/// for, or, after the last upload, the videos are handed out.
pub open spec fn after_statistics(
    uploads: Seq<ListedVideoView>,
    next: nat,
    videos: Seq<VideoView>,
    duration: Option<Seq<char>>,
    view_count: Option<Seq<char>>,
    api_key: Seq<char>,
) -> LookupStepView {
    if next >= uploads.len() {
        LookupStepView::Finish(Ok(videos))
    } else {
        let videos = videos.push(detailed(uploads[next as int], duration, view_count));
        if next + 1 >= uploads.len() {
            LookupStepView::Finish(Ok(videos))
        } else {
            LookupStepView::Request {
                url: statistics_url(uploads[(next + 1) as int].video_id, api_key),
                then: LookupView::Statistics { uploads, next: (next + 1) as nat, videos },
            }
        }
    }
}

/// The rule of the listing: what follows when the awaited response has been
/// read. A search that finds a channel leads to its details, these to the
/// uploads playlist, that to the statistics of each upload in turn, and the
/// last statistics to the videos. Where the channel, the playlist or the
/// uploads are missing the listing ends with the matching error; where
/// nothing could be read, or something that the listing did not wait for, it
/// ends with `Transport`.
pub open spec fn lookup_step(lookup: LookupView, answer: Option<AnswerView>, api_key: Seq<char>)
    -> LookupStepView {
    match (lookup, answer) {
        (LookupView::Search, Some(AnswerView::Channel(Some(channel_id)))) => LookupStepView::Request {
            url: channel_details_url(channel_id, api_key),
            then: LookupView::Channel,
        },
        (LookupView::Search, Some(AnswerView::Channel(None))) => LookupStepView::Finish(
            Err(LookupError::ChannelNotFound),
        ),
        (LookupView::Channel, Some(AnswerView::Uploads(Some(playlist_id)))) => LookupStepView::Request {
            url: uploads_url(playlist_id, api_key),
            then: LookupView::Playlist,
        },
        (LookupView::Channel, Some(AnswerView::Uploads(None))) => LookupStepView::Finish(
            Err(LookupError::PlaylistNotFound),
        ),
        (LookupView::Playlist, Some(AnswerView::Listing(uploads))) => if uploads.len() == 0 {
            LookupStepView::Finish(Err(LookupError::NoVideos))
        } else {
            LookupStepView::Request {
                url: statistics_url(uploads[0].video_id, api_key),
                then: LookupView::Statistics { uploads, next: 0, videos: Seq::empty() },
            }
        },
        (
            LookupView::Statistics { uploads, next, videos },
            Some(AnswerView::Statistics { duration, view_count }),
        ) => after_statistics(uploads, next, videos, duration, view_count, api_key),
        _ => LookupStepView::Finish(Err(LookupError::Transport)),
    }
}

fn decode_listed(value: &serde_json::Value) -> (upload: Option<ListedVideo>)
    ensures
        match upload {
            Some(upload) => listed_video_of(*value) == Some(upload@),
            None => listed_video_of(*value).is_none(),
        },
{
    let snippet = member(value, "snippet");
    match string_of(member(member(snippet, "resourceId"), "videoId")) {
        Some(video_id) => Some(
            ListedVideo {
                video_id: String::from_str(video_id),
                title: owned(string_of(member(snippet, "title"))),
                description: owned(string_of(member(snippet, "description"))),
                thumbnail: owned(
                    string_of(member(member(member(snippet, "thumbnails"), "medium"), "url")),
                ),
                channel_title: owned(string_of(member(snippet, "channelTitle"))),
                published_at: owned(string_of(member(snippet, "publishedAt"))),
            },
        ),
        None => None,
    }
}

fn decode_listing(document: &serde_json::Value) -> (uploads: Vec<ListedVideo>)
    ensures
        listed_views(uploads@) == listed_videos(*document),
{
    let mut uploads: Vec<ListedVideo> = Vec::new();
    match elements_of(member(document, "items")) {
        None => {
            proof {
                assert(listed_views(uploads@) =~= Seq::<ListedVideoView>::empty());
            }
        },
        Some(elements) => {
            let ghost pick = |value: serde_json::Value| listed_video_of(value);
            let mut next: usize = 0;
            proof {
                assert(elements@.take(0) =~= Seq::<serde_json::Value>::empty());
                assert(listed_views(uploads@) =~= Seq::<ListedVideoView>::empty());
            }
            while next < elements.len()
                invariant
                    next <= elements.len(),
                    pick == |value: serde_json::Value| listed_video_of(value),
                    listed_views(uploads@) == elements@.take(next as int).filter_map(pick),
                decreases elements.len() - next,
            {
                let ghost before = uploads@;
                let found = decode_listed(&elements[next]);
                proof {
                    assert(elements@.take(next + 1).drop_last() =~= elements@.take(next as int));
                    assert(elements@.take(next + 1).last() == elements@[next as int]);
                }
                match found {
                    Some(upload) => {
                        uploads.push(upload);
                        proof {
                            assert(listed_views(uploads@) =~= listed_views(before) + seq![upload@]);
                        }
                    },
                    None => {},
                }
                next = next + 1;
            }
            proof {
                assert(elements@.take(elements.len() as int) =~= elements@);
            }
        },
    }
    uploads
}

fn statistics_request(uploads: Vec<ListedVideo>, next: usize, videos: Vec<Video>, api_key: &str) -> (step:
    LookupStep)
    requires
        next < uploads.len(),
    ensures
        step@ == (LookupStepView::Request {
            url: statistics_url(uploads@[next as int]@.video_id, api_key@),
            then: LookupView::Statistics {
                uploads: listed_views(uploads@),
                next: next as nat,
                videos: video_views(videos@),
            },
        }),
{
    let url = concat4(
        "https://www.googleapis.com/youtube/v3/videos?part=contentDetails,statistics&id=",
        uploads[next].video_id.as_str(),
        "&key=",
        api_key,
    );
    LookupStep::Request { url, then: Lookup::Statistics { uploads, next, videos } }
}

impl Lookup {
    /// Starts the listing of the videos of the channel that `query` finds.
    pub fn start(query: &str, api_key: &str) -> (first: LookupStep)
        ensures
            first@ == begin(query@, api_key@),
    {
        let url = concat4(
            "https://www.googleapis.com/youtube/v3/search?part=snippet&type=channel&q=",
            query,
            "&key=",
            api_key,
        );
        LookupStep::Request { url, then: Lookup::Search }
    }

    /// Reads in the body of the awaited response what the listing, being
    /// where it is, waits for. `None` means that the body is no JSON
    /// document.
    pub fn read(&self, body: &str) -> (answer: Option<Answer>)
        ensures
            answer_view(answer) == answer_in(self@, Some(body@)),
    {
        let document = match parse(body) {
            Some(document) => document,
            None => {
                return None;
            },
        };
        let answer = match self {
            Lookup::Search => Answer::Channel(
                match first_item(&document) {
                    Some(first) => owned(string_of(member(member(first, "id"), "channelId"))),
                    None => None,
                },
            ),
            Lookup::Channel => Answer::Uploads(
                match first_item(&document) {
                    Some(first) => owned(
                        string_of(
                            member(
                                member(member(first, "contentDetails"), "relatedPlaylists"),
                                "uploads",
                            ),
                        ),
                    ),
                    None => None,
                },
            ),
            Lookup::Playlist => Answer::Listing(decode_listing(&document)),
            Lookup::Statistics { .. } => match first_item(&document) {
                Some(first) => Answer::Statistics {
                    duration: owned(
                        string_of(member(member(first, "contentDetails"), "duration")),
                    ),
                    view_count: owned(string_of(member(member(first, "statistics"), "viewCount"))),
                },
                None => Answer::Statistics { duration: None, view_count: None },
            },
        };
        Some(answer)
    }

    /// Takes what was read in the awaited response, or `None` if nothing
    /// could be read, and says what comes next.
    pub fn accept(self, answer: Option<Answer>, api_key: &str) -> (next: LookupStep)
        ensures
            next@ == lookup_step(self@, answer_view(answer), api_key@),
    {
        match (self, answer) {
            (Lookup::Search, Some(Answer::Channel(Some(channel_id)))) => LookupStep::Request {
                url: concat4(
                    "https://www.googleapis.com/youtube/v3/channels?part=contentDetails&id=",
                    channel_id.as_str(),
                    "&key=",
                    api_key,
                ),
                then: Lookup::Channel,
            },
            (Lookup::Search, Some(Answer::Channel(None))) => LookupStep::Finish(
                Err(LookupError::ChannelNotFound),
            ),
            (Lookup::Channel, Some(Answer::Uploads(Some(playlist_id)))) => LookupStep::Request {
                url: concat4(
                    "https://www.googleapis.com/youtube/v3/playlistItems?part=snippet&playlistId=",
                    playlist_id.as_str(),
                    "&maxResults=20&key=",
                    api_key,
                ),
                then: Lookup::Playlist,
            },
            (Lookup::Channel, Some(Answer::Uploads(None))) => LookupStep::Finish(
                Err(LookupError::PlaylistNotFound),
            ),
            (Lookup::Playlist, Some(Answer::Listing(uploads))) => {
                if uploads.len() == 0 {
                    LookupStep::Finish(Err(LookupError::NoVideos))
                } else {
                    let videos: Vec<Video> = Vec::new();
                    proof {
                        assert(video_views(videos@) =~= Seq::<VideoView>::empty());
                        assert(listed_views(uploads@)[0] == uploads@[0]@);
                    }
                    statistics_request(uploads, 0, videos, api_key)
                }
            },
            (
                Lookup::Statistics { uploads, next, videos },
                Some(Answer::Statistics { duration, view_count }),
            ) => {
                if next >= uploads.len() {
                    LookupStep::Finish(Ok(videos))
                } else {
                    let ghost before = videos@;
                    let mut videos = videos;
                    let video = make_video(&uploads[next], &duration, &view_count);
                    videos.push(video);
                    proof {
                        assert(listed_views(uploads@)[next as int] == uploads@[next as int]@);
                        assert(video_views(videos@) =~= video_views(before).push(video@));
                    }
                    if next + 1 >= uploads.len() {
                        LookupStep::Finish(Ok(videos))
                    } else {
                        proof {
                            assert(listed_views(uploads@)[next + 1] == uploads@[next + 1]@);
                        }
                        statistics_request(uploads, next + 1, videos, api_key)
                    }
                }
            },
            _ => LookupStep::Finish(Err(LookupError::Transport)),
        }
    }

    /// Takes the body of the awaited response, or `None` if the call failed,
    /// and says what comes next.
    pub fn advance(self, body: Option<String>, api_key: &str) -> (next: LookupStep)
        ensures
            next@ == lookup_step(self@, answer_in(self@, optional_text(body)), api_key@),
    {
        let answer = match body {
            Some(body) => self.read(body.as_str()),
            None => None,
        };
        self.accept(answer, api_key)
    }
}

impl LookupError {
    /// The sentence that reports the error.
    pub fn message(&self) -> (text: String)
        ensures
            text@ == match *self {
                LookupError::Transport => "Erreur de communication avec l'API YouTube"@,
                LookupError::ChannelNotFound => "Impossible de récupérer le channelId"@,
                LookupError::PlaylistNotFound => "Impossible de récupérer la playlist"@,
                LookupError::NoVideos => "Aucune vidéo trouvée"@,
            },
    {
        match self {
            LookupError::Transport => String::from_str("Erreur de communication avec l'API YouTube"),
            LookupError::ChannelNotFound => String::from_str("Impossible de récupérer le channelId"),
            LookupError::PlaylistNotFound => String::from_str("Impossible de récupérer la playlist"),
            LookupError::NoVideos => String::from_str("Aucune vidéo trouvée"),
        }
    }
}

} // verus!
