use vstd::prelude::*;
use vstd::string::*;
use crate::text::{concat4, join, joined, optional_text, texts};
use crate::videos::{Video, VideoView};

verus! {

/// The id of one search result; a result that is no video has no video id.
#[derive(Clone, Debug, PartialEq, Eq)]
pub struct SearchResultId {
    pub video_id: Option<String>,
}

/// One result of a video search.
#[derive(Clone, Debug, PartialEq, Eq)]
pub struct SearchResultItem {
    pub id: SearchResultId,
}

/// The response of a video search.
#[derive(Clone, Debug, PartialEq, Eq)]
pub struct SearchResponse {
    pub items: Vec<SearchResultItem>,
}

/// The address of one image.
#[derive(Clone, Debug, PartialEq, Eq)]
pub struct ThumbnailInfo {
    pub url: String,
}

/// The images of a video.
#[derive(Clone, Debug, PartialEq, Eq)]
pub struct Thumbnails {
    pub high: ThumbnailInfo,
}

/// What describes a video.
#[derive(Clone, Debug, PartialEq, Eq)]
pub struct VideoSnippet {
    pub published_at: String,
    pub title: String,
    pub description: String,
    pub thumbnails: Thumbnails,
    pub channel_title: String,
}

/// The technical details of a video.
#[derive(Clone, Debug, PartialEq, Eq)]
pub struct ContentDetails {
    pub duration: String,
}

/// The counters of a video.
#[derive(Clone, Debug, PartialEq, Eq)]
pub struct Statistics {
    pub view_count: String,
}

/// One video of a details response.
#[derive(Clone, Debug, PartialEq, Eq)]
pub struct VideoDetails {
    pub id: String,
    pub snippet: VideoSnippet,
    pub content_details: ContentDetails,
    pub statistics: Statistics,
}

/// The response of a details call.
#[derive(Clone, Debug, PartialEq, Eq)]
pub struct VideoListResponse {
    pub items: Vec<VideoDetails>,
}

/// The address that searches for the videos that match `query`.
pub open spec fn video_search_url(query: Seq<char>, api_key: Seq<char>) -> Seq<char> {
    "https://www.googleapis.com/youtube/v3/search?part=snippet&type=video&maxResults=50&q="@ + query
        + "&key="@ + api_key
}

/// The address that asks for the details of the videos whose ids, written
/// with commas between them, are `video_ids`.
pub open spec fn details_url(video_ids: Seq<char>, api_key: Seq<char>) -> Seq<char> {
    "https://www.googleapis.com/youtube/v3/videos?part=snippet,contentDetails,statistics&id="@
        + video_ids + "&key="@ + api_key
}

/// The video ids of a search response, in order. Results without a video id
/// are left out.
pub open spec fn found_ids(items: Seq<SearchResultItem>) -> Seq<Seq<char>> {
    items.filter_map(|item: SearchResultItem| optional_text(item.id.video_id))
}

/// The video that the details of a video amount to.
pub open spec fn video_of(details: VideoDetails) -> VideoView {
    VideoView {
        video_id: details.id@,
        title: details.snippet.title@,
        description: details.snippet.description@,
        thumbnail: details.snippet.thumbnails.high.url@,
        channel_title: details.snippet.channel_title@,
        published_at: details.snippet.published_at@,
        duration: details.content_details.duration@,
        view_count: details.statistics.view_count@,
    }
}

/// What follows a search response.
#[derive(Debug, PartialEq, Eq)]
pub enum SearchPlan {
    /// The search found no video: the answer is the empty list.
    Empty,
    /// Get the details of the videos found at this address.
    Details { url: String },
}

/// A [`SearchPlan`] as mathematical values.
pub enum SearchPlanView {
    Empty,
    Details { url: Seq<char> },
}

impl View for SearchPlan {
    type V = SearchPlanView;

    open spec fn view(&self) -> SearchPlanView {
        match *self {
            SearchPlan::Empty => SearchPlanView::Empty,
            SearchPlan::Details { url } => SearchPlanView::Details { url: url@ },
        }
    }
}

/// The rule that follows a search: the ids found are written with commas
/// between them; where that leaves nothing, the answer is empty, otherwise
/// the details of those videos are asked for.
pub open spec fn planned(items: Seq<SearchResultItem>, api_key: Seq<char>) -> SearchPlanView {
    let video_ids = joined(found_ids(items), ","@);
    if video_ids.len() == 0 {
        SearchPlanView::Empty
    } else {
        SearchPlanView::Details { url: details_url(video_ids, api_key) }
    }
}

/// Writes the address that searches for the videos that match `query`.
pub fn search_url(query: &str, api_key: &str) -> (url: String)
    ensures
        url@ == video_search_url(query@, api_key@),
{
    concat4(
        "https://www.googleapis.com/youtube/v3/search?part=snippet&type=video&maxResults=50&q=",
        query,
        "&key=",
        api_key,
    )
}

/// Gathers the video ids of a search response.
pub fn video_ids(response: &SearchResponse) -> (ids: Vec<String>)
    ensures
        texts(ids@) == found_ids(response.items@),
{
    let ghost pick = |item: SearchResultItem| optional_text(item.id.video_id);
    let mut ids: Vec<String> = Vec::new();
    let mut next: usize = 0;
    proof {
        assert(response.items@.take(0) =~= Seq::<SearchResultItem>::empty());
        assert(texts(ids@) =~= Seq::<Seq<char>>::empty());
    }
    while next < response.items.len()
        invariant
            next <= response.items.len(),
            pick == |item: SearchResultItem| optional_text(item.id.video_id),
            texts(ids@) == response.items@.take(next as int).filter_map(pick),
        decreases response.items.len() - next,
    {
        let ghost before = ids@;
        proof {
            let items = response.items@;
            assert(items.take(next + 1).drop_last() =~= items.take(next as int));
            assert(items.take(next + 1).last() == items[next as int]);
        }
        match &response.items[next].id.video_id {
            Some(video_id) => {
                let video_id = video_id.clone();
                ids.push(video_id);
                proof {
                    assert(texts(ids@) =~= texts(before) + seq![video_id@]);
                }
            },
            None => {},
        }
        next = next + 1;
    }
    proof {
        assert(response.items@.take(response.items.len() as int) =~= response.items@);
    }
    ids
}

/// Decides what follows a search response.
pub fn plan(response: &SearchResponse, api_key: &str) -> (next: SearchPlan)
    ensures
        next@ == planned(response.items@, api_key@),
{
    let ids = video_ids(response);
    let line = join(&ids, ",");
    if line.as_str().is_empty() {
        SearchPlan::Empty
    } else {
        SearchPlan::Details {
            url: concat4(
                "https://www.googleapis.com/youtube/v3/videos?part=snippet,contentDetails,statistics&id=",
                line.as_str(),
                "&key=",
                api_key,
            ),
        }
    }
}

/// Turns the details of the videos found into the videos of the answer, one
/// for one and in order.
pub fn videos_from(details: &VideoListResponse) -> (videos: Vec<Video>)
    ensures
        videos@.map_values(|video: Video| video@) == details.items@.map_values(
            |details: VideoDetails| video_of(details),
        ),
{
    let mut videos: Vec<Video> = Vec::new();
    let mut next: usize = 0;
    while next < details.items.len()
        invariant
            next <= details.items.len(),
            videos@.map_values(|video: Video| video@) =~= details.items@.map_values(
                |details: VideoDetails| video_of(details),
            ).take(next as int),
        decreases details.items.len() - next,
    {
        let ghost before = videos@;
        let item = &details.items[next];
        let video = Video {
            video_id: item.id.clone(),
            title: item.snippet.title.clone(),
            description: item.snippet.description.clone(),
            thumbnail: item.snippet.thumbnails.high.url.clone(),
            channel_title: item.snippet.channel_title.clone(),
            published_at: item.snippet.published_at.clone(),
            duration: item.content_details.duration.clone(),
            view_count: item.statistics.view_count.clone(),
        };
        videos.push(video);
        proof {
            assert(videos@.map_values(|video: Video| video@) =~= before.map_values(
                |video: Video| video@,
            ).push(video@));
        }
        next = next + 1;
    }
    proof {
        let all = details.items@.map_values(|details: VideoDetails| video_of(details));
        assert(all.take(details.items.len() as int) =~= all);
    }
    videos
}

} // verus!
