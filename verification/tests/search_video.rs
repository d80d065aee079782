use subscription_feed::search_video::{
    plan, search_url, video_ids, videos_from, ContentDetails, SearchPlan, SearchResponse,
    SearchResultId, SearchResultItem, Statistics, ThumbnailInfo, Thumbnails, VideoDetails,
    VideoListResponse, VideoSnippet,
};
use subscription_feed::videos::Video;

fn response(ids: &[Option<&str>]) -> SearchResponse {
    SearchResponse {
        items: ids
            .iter()
            .map(|id| SearchResultItem { id: SearchResultId { video_id: id.map(|id| id.to_string()) } })
            .collect(),
    }
}

fn details(id: &str) -> VideoDetails {
    VideoDetails {
        id: id.to_string(),
        snippet: VideoSnippet {
            published_at: format!("published {}", id),
            title: format!("title {}", id),
            description: format!("description {}", id),
            thumbnails: Thumbnails { high: ThumbnailInfo { url: format!("thumbnail {}", id) } },
            channel_title: format!("channel {}", id),
        },
        content_details: ContentDetails { duration: format!("duration {}", id) },
        statistics: Statistics { view_count: format!("views {}", id) },
    }
}

#[test]
fn search_url_names_query_and_key() {
    assert_eq!(
        search_url("rust verification", "KEY"),
        "https://www.googleapis.com/youtube/v3/search?part=snippet&type=video&maxResults=50&q=rust verification&key=KEY"
    );
}

#[test]
fn video_ids_skip_results_without_one() {
    assert_eq!(
        video_ids(&response(&[Some("a"), None, Some("b"), None, Some("a")])),
        vec!["a".to_string(), "b".to_string(), "a".to_string()]
    );
    assert_eq!(video_ids(&response(&[None, None])), Vec::<String>::new());
    assert_eq!(video_ids(&response(&[])), Vec::<String>::new());
}

#[test]
fn plan_asks_for_the_details_of_the_videos_found() {
    assert_eq!(
        plan(&response(&[Some("a"), None, Some("b")]), "KEY"),
        SearchPlan::Details {
            url: "https://www.googleapis.com/youtube/v3/videos?part=snippet,contentDetails,statistics&id=a,b&key=KEY"
                .to_string()
        }
    );
    assert_eq!(
        plan(&response(&[Some(""), Some("")]), "KEY"),
        SearchPlan::Details {
            url: "https://www.googleapis.com/youtube/v3/videos?part=snippet,contentDetails,statistics&id=,&key=KEY"
                .to_string()
        }
    );
}

#[test]
fn plan_is_empty_when_no_video_is_found() {
    assert_eq!(plan(&response(&[]), "KEY"), SearchPlan::Empty);
    assert_eq!(plan(&response(&[None, None]), "KEY"), SearchPlan::Empty);
    assert_eq!(plan(&response(&[Some("")]), "KEY"), SearchPlan::Empty);
}

#[test]
fn details_become_videos_one_for_one() {
    let list = VideoListResponse { items: vec![details("x"), details("y")] };
    let videos = videos_from(&list);
    assert_eq!(videos.len(), 2);
    assert_eq!(
        videos[0],
        Video {
            video_id: "x".to_string(),
            title: "title x".to_string(),
            description: "description x".to_string(),
            thumbnail: "thumbnail x".to_string(),
            channel_title: "channel x".to_string(),
            published_at: "published x".to_string(),
            duration: "duration x".to_string(),
            view_count: "views x".to_string(),
        }
    );
    assert_eq!(videos[1].video_id, "y");
    assert_eq!(videos[1].view_count, "views y");
    assert_eq!(videos_from(&VideoListResponse { items: vec![] }), Vec::new());
}
