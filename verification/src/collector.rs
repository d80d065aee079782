use vstd::prelude::*;
use vstd::string::*;
use crate::error::FeedError;
use crate::executor::outcome_view;
use crate::instant::{instant_of, parse_rfc3339};
use crate::json::{
    elements_of, items_of, json_document, json_member, json_string, member, next_page_token_of,
    parse, string_of,
};
use crate::models::{Timestamp, Video, VideoView};
use crate::pagination::{
    lemma_step_commutes_with_map, response_view, step, Page, PageView, Pager, PagerStep,
    PagerStepView, PagerView,
};
use crate::text::{copy_or, decimal, decimal_digits, optional_text, owned, text_or};

verus! {

/// How many entries one channel contributes to the feed unless the caller
/// chooses otherwise.
pub const DEFAULT_ENTRY_CAP: usize = 5;

/// One item of a playlist page as the platform sent it: every field may be
/// missing.
#[derive(Clone, Debug, PartialEq, Eq)]
pub struct PlaylistItem {
    pub video_id: Option<String>,
    pub published_at: Option<String>,
    pub title: Option<String>,
    pub thumbnail_medium: Option<String>,
    pub thumbnail_default: Option<String>,
    pub channel_title: Option<String>,
}

/// A [`PlaylistItem`] as mathematical values.
pub struct PlaylistItemView {
    pub video_id: Option<Seq<char>>,
    pub published_at: Option<Seq<char>>,
    pub title: Option<Seq<char>>,
    pub thumbnail_medium: Option<Seq<char>>,
    pub thumbnail_default: Option<Seq<char>>,
    pub channel_title: Option<Seq<char>>,
}

impl View for PlaylistItem {
    type V = PlaylistItemView;

    open spec fn view(&self) -> PlaylistItemView {
        PlaylistItemView {
            video_id: optional_text(self.video_id),
            published_at: optional_text(self.published_at),
            title: optional_text(self.title),
            thumbnail_medium: optional_text(self.thumbnail_medium),
            thumbnail_default: optional_text(self.thumbnail_default),
            channel_title: optional_text(self.channel_title),
        }
    }
}

/// What a list of items holds.
pub open spec fn item_views(items: Seq<PlaylistItem>) -> Seq<PlaylistItemView> {
    items.map_values(|item: PlaylistItem| item@)
}

/// What a list of videos holds.
pub open spec fn video_views(videos: Seq<Video>) -> Seq<VideoView> {
    videos.map_values(|video: Video| video@)
}

/// The address at which the video `video_id` is watched.
pub open spec fn watch_url(video_id: Seq<char>) -> Seq<char> {
    "https://www.youtube.com/watch?v="@ + video_id
}

/// The thumbnail of an item: the medium image if the item names one, else
/// the default image, else nothing.
pub open spec fn thumbnail_of(item: PlaylistItemView) -> Seq<char> {
    match item.thumbnail_medium {
        Some(url) => url,
        None => match item.thumbnail_default {
            Some(url) => url,
            None => Seq::empty(),
        },
    }
}

/// The feed entry that an item makes once its publication instant is known.
/// An item without a video id makes none, and so does one without a
/// publication date or with one that denotes no instant.
pub open spec fn entry(item: PlaylistItemView, published_at: Option<Timestamp>) -> Option<
    VideoView,
> {
    if item.video_id.is_some() && item.published_at.is_some() && published_at.is_some() {
        Some(
            VideoView {
                url: watch_url(item.video_id.unwrap()),
                video_id: item.video_id.unwrap(),
                published_at: published_at.unwrap(),
                title: text_or(item.title, "Sans titre"@),
                thumbnail: thumbnail_of(item),
                channel_title: text_or(item.channel_title, "Chaîne inconnue"@),
            },
        )
    } else {
        None
    }
}

/// The instant that an item's publication date denotes, if it has a date
/// and the date denotes one.
pub open spec fn publication_instant(item: PlaylistItemView) -> Option<Timestamp> {
    match item.published_at {
        Some(text) => instant_of(text),
        None => None,
    }
}

/// The feed entry that an item makes.
pub open spec fn entry_of_item(item: PlaylistItemView) -> Option<VideoView> {
    entry(item, publication_instant(item))
}

/// The feed entries that the items of a page make, in page order. Items that
/// make none are left out.
pub open spec fn entries(items: Seq<PlaylistItemView>) -> Seq<VideoView> {
    items.filter_map(|item: PlaylistItemView| entry_of_item(item))
}

/// Makes the feed entry of `item`, given the instant that its publication
/// date denotes (`None` if it denotes none).
pub fn make_entry(item: &PlaylistItem, published_at: Option<Timestamp>) -> (video: Option<Video>)
    ensures
        match video {
            Some(video) => entry(item@, published_at) == Some(video@),
            None => entry(item@, published_at).is_none(),
        },
{
    if item.published_at.is_none() {
        return None;
    }
    match (&item.video_id, published_at) {
        (Some(video_id), Some(published_at)) => {
            let mut url = String::from_str("https://www.youtube.com/watch?v=");
            url.append(video_id.as_str());
            let thumbnail = match &item.thumbnail_medium {
                Some(url) => url.clone(),
                None => match &item.thumbnail_default {
                    Some(url) => url.clone(),
                    None => String::new(),
                },
            };
            Some(
                Video {
                    url,
                    video_id: video_id.clone(),
                    published_at,
                    title: copy_or(&item.title, "Sans titre"),
                    thumbnail,
                    channel_title: copy_or(&item.channel_title, "Chaîne inconnue"),
                },
            )
        },
        _ => None,
    }
}

/// Makes the feed entry of `item`: reads its publication date and fills in
/// what the item leaves out.
pub fn entry_of(item: &PlaylistItem) -> (video: Option<Video>)
    ensures
        match video {
            Some(video) => entry_of_item(item@) == Some(video@),
            None => entry_of_item(item@).is_none(),
        },
{
    let published_at = match &item.published_at {
        Some(text) => parse_rfc3339(text.as_str()),
        None => None,
    };
    make_entry(item, published_at)
}

/// Makes the feed entries of the items of a page, in page order, leaving out
/// the items that make none.
pub fn entries_of(items: &Vec<PlaylistItem>) -> (videos: Vec<Video>)
    ensures
        video_views(videos@) == entries(item_views(items@)),
{
    let mut videos: Vec<Video> = Vec::new();
    let mut next: usize = 0;
    proof {
        assert(item_views(items@).take(0) =~= Seq::<PlaylistItemView>::empty());
        assert(video_views(videos@) =~= Seq::<VideoView>::empty());
    }
    while next < items.len()
        invariant
            next <= items.len(),
            video_views(videos@) == entries(item_views(items@).take(next as int)),
        decreases items.len() - next,
    {
        let ghost before = videos@;
        let made = entry_of(&items[next]);
        proof {
            let all = item_views(items@);
            assert(all.take(next + 1).drop_last() =~= all.take(next as int));
            assert(all.take(next + 1).last() == items@[next as int]@);
        }
        match made {
            Some(video) => {
                videos.push(video);
                proof {
                    assert(video_views(videos@) =~= video_views(before) + seq![video@]);
                }
            },
            None => {},
        }
        next = next + 1;
    }
    proof {
        assert(item_views(items@).take(items.len() as int) =~= item_views(items@));
    }
    videos
}

/// The address of one page of the items of a playlist.
pub open spec fn playlist_items_url(
    playlist_id: Seq<char>,
    max_results: nat,
    api_key: Seq<char>,
    page_token: Option<Seq<char>>,
) -> Seq<char> {
    let first = "https://www.googleapis.com/youtube/v3/playlistItems?part=snippet&playlistId="@
        + playlist_id + "&maxResults="@ + decimal_digits(max_results) + "&key="@ + api_key;
    match page_token {
        Some(token) => first + "&pageToken="@ + token,
        None => first,
    }
}

/// The item that a JSON value of a playlist page stands for.
pub open spec fn playlist_item_of(value: serde_json::Value) -> PlaylistItemView {
    let snippet = json_member(value, "snippet"@);
    let thumbnails = json_member(snippet, "thumbnails"@);
    PlaylistItemView {
        video_id: json_string(json_member(json_member(snippet, "resourceId"@), "videoId"@)),
        published_at: json_string(json_member(snippet, "publishedAt"@)),
        title: json_string(json_member(snippet, "title"@)),
        thumbnail_medium: json_string(json_member(json_member(thumbnails, "medium"@), "url"@)),
        thumbnail_default: json_string(json_member(json_member(thumbnails, "default"@), "url"@)),
        channel_title: json_string(json_member(snippet, "channelTitle"@)),
    }
}

/// The page that a JSON document of the playlist items listing stands for:
/// the elements of its `items`, if that is an array, and its `nextPageToken`,
/// if that is a string.
pub open spec fn playlist_page_of(document: serde_json::Value) -> PageView<PlaylistItemView> {
    PageView {
        items: items_of(document).map_values(|value: serde_json::Value| playlist_item_of(value)),
        next_page_token: next_page_token_of(document),
    }
}

/// The page that the body of a response of the playlist items listing stands
/// for, if the body is a JSON document.
pub open spec fn playlist_page_in(body: Seq<char>) -> Option<PageView<PlaylistItemView>> {
    match json_document(body) {
        Some(document) => Some(playlist_page_of(document)),
        None => None,
    }
}

/// What a decoded page holds.
pub open spec fn decoded_view(page: Option<Page<PlaylistItem>>) -> Option<
    PageView<PlaylistItemView>,
> {
    match page {
        Some(page) => Some(
            PageView {
                items: item_views(page.items@),
                next_page_token: optional_text(page.next_page_token),
            },
        ),
        None => None,
    }
}

fn decode_item(value: &serde_json::Value) -> (item: PlaylistItem)
    ensures
        item@ == playlist_item_of(*value),
{
    let snippet = member(value, "snippet");
    let thumbnails = member(snippet, "thumbnails");
    PlaylistItem {
        video_id: owned(string_of(member(member(snippet, "resourceId"), "videoId"))),
        published_at: owned(string_of(member(snippet, "publishedAt"))),
        title: owned(string_of(member(snippet, "title"))),
        thumbnail_medium: owned(string_of(member(member(thumbnails, "medium"), "url"))),
        thumbnail_default: owned(string_of(member(member(thumbnails, "default"), "url"))),
        channel_title: owned(string_of(member(snippet, "channelTitle"))),
    }
}

/// Decodes the body of a response of the playlist items listing. `None`
/// means that the body is no JSON document.
pub fn decode_playlist_page(body: &str) -> (page: Option<Page<PlaylistItem>>)
    ensures
        decoded_view(page) == playlist_page_in(body@),
{
    match parse(body) {
        None => None,
        Some(document) => {
            let mut items: Vec<PlaylistItem> = Vec::new();
            match elements_of(member(&document, "items")) {
                None => {
                    proof {
                        assert(item_views(items@) =~= playlist_page_of(document).items);
                    }
                },
                Some(elements) => {
                    let ghost all = elements@.map_values(
                        |value: serde_json::Value| playlist_item_of(value),
                    );
                    let mut next: usize = 0;
                    while next < elements.len()
                        invariant
                            next <= elements.len(),
                            all == elements@.map_values(
                                |value: serde_json::Value| playlist_item_of(value),
                            ),
                            item_views(items@) =~= all.take(next as int),
                        decreases elements.len() - next,
                    {
                        let ghost before = items@;
                        let item = decode_item(&elements[next]);
                        items.push(item);
                        proof {
                            assert(all[next as int] == playlist_item_of(elements@[next as int]));
                            assert(item_views(items@) =~= item_views(before).push(item@));
                            assert(all.take(next + 1) =~= all.take(next as int).push(
                                all[next as int],
                            ));
                        }
                        next = next + 1;
                    }
                    proof {
                        assert(all.take(elements.len() as int) =~= all);
                        assert(all =~= playlist_page_of(document).items);
                    }
                },
            }
            let next_page_token = owned(string_of(member(&document, "nextPageToken")));
            Some(Page { items, next_page_token })
        },
    }
}

/// The collector of one channel: the playlist it reads, the number of
/// entries at which it stops asking for further pages, and the listing so
/// far.
#[derive(Debug, PartialEq, Eq)]
pub struct Collector {
    pub playlist_id: String,
    pub cap: usize,
    pub pager: Pager<Video>,
}

/// A [`Collector`] as mathematical values.
pub struct CollectorView {
    pub playlist_id: Seq<char>,
    pub cap: nat,
    pub pager: PagerView<VideoView>,
}

impl View for Collector {
    type V = CollectorView;

    open spec fn view(&self) -> CollectorView {
        CollectorView {
            playlist_id: self.playlist_id@,
            cap: self.cap as nat,
            pager: self.pager@.map_items(|video: Video| video@),
        }
    }
}

/// What the caller does after a page request of a collector.
#[derive(Debug, PartialEq, Eq)]
pub enum CollectorStep {
    /// Request the page that the collector's cursor names and hand the
    /// response to this collector.
    Next(Collector),
    /// The channel is read: these are its entries.
    Complete(Vec<Video>),
}

/// A [`CollectorStep`] as mathematical values.
pub enum CollectorStepView {
    Next(CollectorView),
    Complete(Seq<VideoView>),
}

impl View for CollectorStep {
    type V = CollectorStepView;

    open spec fn view(&self) -> CollectorStepView {
        match *self {
            CollectorStep::Next(collector) => CollectorStepView::Next(collector@),
            CollectorStep::Complete(videos) => CollectorStepView::Complete(video_views(videos@)),
        }
    }
}

/// The response with each item replaced by the entry it makes, items that
/// make none left out.
pub open spec fn entries_response(response: Result<PageView<PlaylistItemView>, FeedError>)
    -> Result<PageView<VideoView>, FeedError> {
    match response {
        Ok(page) => Ok(
            PageView { items: entries(page.items), next_page_token: page.next_page_token },
        ),
        Err(error) => Err(error),
    }
}

/// The collector's rule. It reads the playlist as a pager does, with three
/// differences: each item becomes a feed entry or is dropped; once the
/// entries gathered reach the cap no further page is asked for, though the
/// page that reached it is kept whole; and a failure of any kind ends the
/// collection with what had been gathered instead of an error.
pub open spec fn collect_step(
    collector: CollectorView,
    response: Result<PageView<PlaylistItemView>, FeedError>,
) -> CollectorStepView {
    match step(collector.pager, entries_response(response)) {
        PagerStepView::Next(pager) => if pager.items.len() >= collector.cap {
            CollectorStepView::Complete(pager.items)
        } else {
            CollectorStepView::Next(
                CollectorView { playlist_id: collector.playlist_id, cap: collector.cap, pager },
            )
        },
        PagerStepView::Complete(videos) => CollectorStepView::Complete(videos),
        PagerStepView::Failed { collected, .. } => CollectorStepView::Complete(collected),
    }
}

/// What a response of the playlist items listing holds, as mathematical
/// values.
pub open spec fn items_response_view(response: Result<Page<PlaylistItem>, FeedError>) -> Result<
    PageView<PlaylistItemView>,
    FeedError,
> {
    match response {
        Ok(page) => Ok(
            PageView {
                items: item_views(page.items@),
                next_page_token: optional_text(page.next_page_token),
            },
        ),
        Err(error) => Err(error),
    }
}

/// The response that the outcome of a call carries: the page in its body, or
/// the call's error; a body that is no JSON document counts as a transport
/// failure.
pub open spec fn items_response_in(outcome: Result<Seq<char>, FeedError>) -> Result<
    PageView<PlaylistItemView>,
    FeedError,
> {
    match outcome {
        Ok(body) => match playlist_page_in(body) {
            Some(page) => Ok(page),
            None => Err(FeedError::Transport),
        },
        Err(error) => Err(error),
    }
}

impl Collector {
    /// A collector that has requested nothing yet.
    pub fn new(playlist_id: String, cap: usize) -> (collector: Collector)
        ensures
            collector@ == (CollectorView {
                playlist_id: playlist_id@,
                cap: cap as nat,
                pager: PagerView { items: Seq::empty(), cursor: None },
            }),
    {
        let collector = Collector { playlist_id, cap, pager: Pager::new() };
        proof {
            assert(collector.pager@.items.map_values(|video: Video| video@) =~= Seq::<
                VideoView,
            >::empty());
        }
        collector
    }

    /// The address of the pending page request.
    pub fn request_url(&self, api_key: &str) -> (url: String)
        ensures
            url@ == playlist_items_url(self@.playlist_id, self@.cap, api_key@, self@.pager.cursor),
    {
        let mut url = String::from_str(
            "https://www.googleapis.com/youtube/v3/playlistItems?part=snippet&playlistId=",
        );
        url.append(self.playlist_id.as_str());
        url.append("&maxResults=");
        let count = decimal(self.cap as u64);
        url.append(count.as_str());
        url.append("&key=");
        url.append(api_key);
        match &self.pager.cursor {
            Some(token) => {
                url.append("&pageToken=");
                url.append(token.as_str());
            },
            None => {},
        }
        url
    }

    /// Takes the response to the pending page request and says what comes
    /// next.
    pub fn accept(self, response: Result<Page<PlaylistItem>, FeedError>) -> (next: CollectorStep)
        ensures
            next@ == collect_step(self@, items_response_view(response)),
    {
        let ghost rename = |video: Video| video@;
        let ghost before = self.pager@;
        let paged: Result<Page<Video>, FeedError> = match response {
            Ok(page) => Ok(
                Page { items: entries_of(&page.items), next_page_token: page.next_page_token },
            ),
            Err(error) => Err(error),
        };
        proof {
            lemma_step_commutes_with_map(before, response_view(paged), rename);
            assert(crate::pagination::map_response(response_view(paged), rename)
                == entries_response(items_response_view(response)));
        }
        match self.pager.accept(paged) {
            PagerStep::Next(pager) => {
                if pager.items.len() >= self.cap {
                    CollectorStep::Complete(pager.items)
                } else {
                    CollectorStep::Next(
                        Collector { playlist_id: self.playlist_id, cap: self.cap, pager },
                    )
                }
            },
            PagerStep::Complete(videos) => CollectorStep::Complete(videos),
            PagerStep::Failed { collected, .. } => CollectorStep::Complete(collected),
        }
    }

    /// Takes the outcome of the call that made the pending page request, with
    /// the body of the response still undecoded, and says what comes next.
    pub fn accept_outcome(self, outcome: Result<String, FeedError>) -> (next: CollectorStep)
        ensures
            next@ == collect_step(self@, items_response_in(outcome_view(outcome))),
    {
        let response = match outcome {
            Ok(body) => match decode_playlist_page(body.as_str()) {
                Some(page) => Ok(page),
                None => Err(FeedError::Transport),
            },
            Err(error) => Err(error),
        };
        self.accept(response)
    }
}

/// Where a collection stands after some responses, and how many requests
/// were made to get there.
pub struct CollectorRun {
    pub last: CollectorStepView,
    pub calls: nat,
}

/// Runs the collector against the responses that the platform gives to the
/// successive page requests. Responses behind the one that ends the
/// collection are never asked for.
pub open spec fn collect_run(
    collector: CollectorView,
    responses: Seq<Result<PageView<PlaylistItemView>, FeedError>>,
) -> CollectorRun
    decreases responses.len(),
{
    if responses.len() == 0 {
        CollectorRun { last: CollectorStepView::Next(collector), calls: 0 }
    } else {
        match collect_step(collector, responses[0]) {
            CollectorStepView::Next(next) => {
                let rest = collect_run(next, responses.drop_first());
                CollectorRun { last: rest.last, calls: rest.calls + 1 }
            },
            last => CollectorRun { last, calls: 1 },
        }
    }
}

/// The entries that the pages of some responses make, page after page.
/// Responses that carry no page contribute none.
pub open spec fn gathered(responses: Seq<Result<PageView<PlaylistItemView>, FeedError>>) -> Seq<
    VideoView,
>
    decreases responses.len(),
{
    if responses.len() == 0 {
        Seq::empty()
    } else {
        (match responses[0] {
            Ok(page) => entries(page.items),
            Err(_) => Seq::empty(),
        }) + gathered(responses.drop_first())
    }
}

/// A page whose entries bring the collection to its cap ends it, whether or
/// not the page names a further one, and the page is kept whole.
pub proof fn law_cap_ends_collection(collector: CollectorView, page: PageView<PlaylistItemView>)
    requires
        collector.pager.items.len() + entries(page.items).len() >= collector.cap,
    ensures
        collect_step(collector, Ok(page)) == CollectorStepView::Complete(
            collector.pager.items + entries(page.items),
        ),
{
}

/// A collector that is still going after some responses holds the entries of
/// all their pages, in page order, behind what it held before, and has made
/// one request for each response.
pub proof fn law_collection_grows_by_pages(
    collector: CollectorView,
    responses: Seq<Result<PageView<PlaylistItemView>, FeedError>>,
)
    requires
        collect_run(collector, responses).last is Next,
    ensures
        collect_run(collector, responses).last->Next_0.pager.items == collector.pager.items
            + gathered(responses),
        collect_run(collector, responses).last->Next_0.cap == collector.cap,
        collect_run(collector, responses).calls == responses.len(),
    decreases responses.len(),
{
    if responses.len() == 0 {
        assert(collector.pager.items + gathered(responses) =~= collector.pager.items);
    } else {
        match collect_step(collector, responses[0]) {
            CollectorStepView::Next(next) => {
                law_collection_grows_by_pages(next, responses.drop_first());
                assert(next.pager.items + gathered(responses.drop_first())
                    =~= collector.pager.items + gathered(responses));
            },
            CollectorStepView::Complete(_) => {},
        }
    }
}

/// A failure, of whatever kind, ends the collection with exactly what had
/// been gathered before it: a collector that was still going after
/// `before` and then meets a failed request completes with the entries it
/// held, and makes no further request.
pub proof fn law_failure_yields_what_was_gathered(
    collector: CollectorView,
    before: Seq<Result<PageView<PlaylistItemView>, FeedError>>,
    error: FeedError,
    further: Seq<Result<PageView<PlaylistItemView>, FeedError>>,
)
    requires
        collect_run(collector, before).last is Next,
    ensures
        collect_run(collector, before + seq![Err(error)] + further) == (CollectorRun {
            last: CollectorStepView::Complete(collector.pager.items + gathered(before)),
            calls: before.len() + 1,
        }),
    decreases before.len(),
{
    let responses = before + seq![Err::<PageView<PlaylistItemView>, FeedError>(error)] + further;
    if before.len() == 0 {
        assert(responses[0] == Err::<PageView<PlaylistItemView>, FeedError>(error));
        assert(collector.pager.items + gathered(before) =~= collector.pager.items);
    } else {
        assert(responses[0] == before[0]);
        assert(responses.drop_first() =~= before.drop_first() + seq![
            Err::<PageView<PlaylistItemView>, FeedError>(error),
        ] + further);
        match collect_step(collector, before[0]) {
            CollectorStepView::Next(next) => {
                law_failure_yields_what_was_gathered(next, before.drop_first(), error, further);
                assert(next.pager.items + gathered(before.drop_first()) =~= collector.pager.items
                    + gathered(before));
            },
            CollectorStepView::Complete(_) => {},
        }
    }
}

} // verus!
