use subscription_feed::videos::{
    make_video, Answer, ListedVideo, Lookup, LookupError, LookupStep, Video,
};

fn listed(video_id: &str) -> ListedVideo {
    ListedVideo {
        video_id: video_id.to_string(),
        title: None,
        description: None,
        thumbnail: None,
        channel_title: None,
        published_at: None,
    }
}

fn request(step: LookupStep) -> (String, Lookup) {
    match step {
        LookupStep::Request { url, then } => (url, then),
        other => panic!("unexpected {:?}", other),
    }
}

const SEARCH: &str = r#"{"items": [{"id": {"kind": "youtube#channel", "channelId": "UC42"}}, {"id": {"channelId": "UC43"}}]}"#;
const CHANNEL: &str = r#"{"items": [{"id": "UC42", "contentDetails": {"relatedPlaylists": {"uploads": "UU42"}}}]}"#;
const PLAYLIST: &str = r#"{"items": [
    {"snippet": {"resourceId": {"videoId": "v1"}, "title": "One", "description": "First video",
                 "thumbnails": {"medium": {"url": "https://img/1"}}, "channelTitle": "Forty-two",
                 "publishedAt": "2024-02-01T00:00:00Z"}},
    {"snippet": {"resourceId": {"kind": "youtube#playlist"}}},
    {"snippet": {"resourceId": {"videoId": "v2"}}}
]}"#;

#[test]
fn make_video_fills_in_what_is_missing() {
    assert_eq!(
        make_video(&listed("v"), &None, &None),
        Video {
            video_id: "v".to_string(),
            title: "Titre inconnu".to_string(),
            description: String::new(),
            thumbnail: "https://via.placeholder.com/320x180".to_string(),
            channel_title: "Chaîne inconnue".to_string(),
            published_at: String::new(),
            duration: "PT0S".to_string(),
            view_count: "0".to_string(),
        }
    );
}

#[test]
fn make_video_takes_what_is_given() {
    let upload = ListedVideo {
        video_id: "v".to_string(),
        title: Some("T".to_string()),
        description: Some("D".to_string()),
        thumbnail: Some("I".to_string()),
        channel_title: Some("C".to_string()),
        published_at: Some("2024-02-01T00:00:00Z".to_string()),
    };
    assert_eq!(
        make_video(&upload, &Some("PT3M".to_string()), &Some("17".to_string())),
        Video {
            video_id: "v".to_string(),
            title: "T".to_string(),
            description: "D".to_string(),
            thumbnail: "I".to_string(),
            channel_title: "C".to_string(),
            published_at: "2024-02-01T00:00:00Z".to_string(),
            duration: "PT3M".to_string(),
            view_count: "17".to_string(),
        }
    );
}

#[test]
fn lookup_walks_from_search_to_statistics() {
    let (url, lookup) = request(Lookup::start("some channel", "KEY"));
    assert_eq!(
        url,
        "https://www.googleapis.com/youtube/v3/search?part=snippet&type=channel&q=some channel&key=KEY"
    );
    assert_eq!(lookup, Lookup::Search);

    let (url, lookup) = request(lookup.advance(Some(SEARCH.to_string()), "KEY"));
    assert_eq!(
        url,
        "https://www.googleapis.com/youtube/v3/channels?part=contentDetails&id=UC42&key=KEY"
    );
    assert_eq!(lookup, Lookup::Channel);

    let (url, lookup) = request(lookup.advance(Some(CHANNEL.to_string()), "KEY"));
    assert_eq!(
        url,
        "https://www.googleapis.com/youtube/v3/playlistItems?part=snippet&playlistId=UU42&maxResults=20&key=KEY"
    );
    assert_eq!(lookup, Lookup::Playlist);

    let (url, lookup) = request(lookup.advance(Some(PLAYLIST.to_string()), "KEY"));
    assert_eq!(
        url,
        "https://www.googleapis.com/youtube/v3/videos?part=contentDetails,statistics&id=v1&key=KEY"
    );

    let statistics = r#"{"items": [{"contentDetails": {"duration": "PT4M13S"}, "statistics": {"viewCount": "1234"}}]}"#;
    let (url, lookup) = request(lookup.advance(Some(statistics.to_string()), "KEY"));
    assert_eq!(
        url,
        "https://www.googleapis.com/youtube/v3/videos?part=contentDetails,statistics&id=v2&key=KEY"
    );

    let step = lookup.advance(Some("{\"items\": []}".to_string()), "KEY");
    assert_eq!(
        step,
        LookupStep::Finish(Ok(vec![
            Video {
                video_id: "v1".to_string(),
                title: "One".to_string(),
                description: "First video".to_string(),
                thumbnail: "https://img/1".to_string(),
                channel_title: "Forty-two".to_string(),
                published_at: "2024-02-01T00:00:00Z".to_string(),
                duration: "PT4M13S".to_string(),
                view_count: "1234".to_string(),
            },
            Video {
                video_id: "v2".to_string(),
                title: "Titre inconnu".to_string(),
                description: String::new(),
                thumbnail: "https://via.placeholder.com/320x180".to_string(),
                channel_title: "Chaîne inconnue".to_string(),
                published_at: String::new(),
                duration: "PT0S".to_string(),
                view_count: "0".to_string(),
            },
        ]))
    );
}

#[test]
fn search_without_channel_ends_the_lookup() {
    for body in ["{\"items\": []}", "{}", "{\"items\": [{\"id\": {\"videoId\": \"v\"}}]}"] {
        assert_eq!(
            Lookup::Search.advance(Some(body.to_string()), "KEY"),
            LookupStep::Finish(Err(LookupError::ChannelNotFound))
        );
    }
}

#[test]
fn channel_without_uploads_ends_the_lookup() {
    for body in ["{\"items\": []}", "{\"items\": [{\"contentDetails\": {}}]}"] {
        assert_eq!(
            Lookup::Channel.advance(Some(body.to_string()), "KEY"),
            LookupStep::Finish(Err(LookupError::PlaylistNotFound))
        );
    }
}

#[test]
fn playlist_without_videos_ends_the_lookup() {
    for body in ["{\"items\": []}", "{}", "{\"items\": [{\"snippet\": {}}]}"] {
        assert_eq!(
            Lookup::Playlist.advance(Some(body.to_string()), "KEY"),
            LookupStep::Finish(Err(LookupError::NoVideos))
        );
    }
}

#[test]
fn failed_call_or_broken_body_ends_the_lookup() {
    let states = || {
        vec![
            Lookup::Search,
            Lookup::Channel,
            Lookup::Playlist,
            Lookup::Statistics { uploads: vec![listed("v")], next: 0, videos: Vec::new() },
        ]
    };
    for lookup in states() {
        assert_eq!(lookup.advance(None, "KEY"), LookupStep::Finish(Err(LookupError::Transport)));
    }
    for lookup in states() {
        assert_eq!(
            lookup.advance(Some("<html>".to_string()), "KEY"),
            LookupStep::Finish(Err(LookupError::Transport))
        );
    }
}

#[test]
fn statistics_past_the_last_upload_hand_out_the_videos() {
    let video = make_video(&listed("v"), &None, &None);
    let lookup = Lookup::Statistics { uploads: vec![listed("v")], next: 1, videos: vec![video.clone()] };
    assert_eq!(lookup.advance(Some("{}".to_string()), "KEY"), LookupStep::Finish(Ok(vec![video])));
}

#[test]
fn lookup_errors_have_their_sentences() {
    assert_eq!(LookupError::ChannelNotFound.message(), "Impossible de récupérer le channelId");
    assert_eq!(LookupError::PlaylistNotFound.message(), "Impossible de récupérer la playlist");
    assert_eq!(LookupError::NoVideos.message(), "Aucune vidéo trouvée");
    assert_eq!(LookupError::Transport.message(), "Erreur de communication avec l'API YouTube");
}

#[test]
fn lookup_reads_what_it_waits_for() {
    assert_eq!(Lookup::Search.read(SEARCH), Some(Answer::Channel(Some("UC42".to_string()))));
    assert_eq!(Lookup::Search.read(CHANNEL), Some(Answer::Channel(None)));
    assert_eq!(Lookup::Channel.read(CHANNEL), Some(Answer::Uploads(Some("UU42".to_string()))));
    assert_eq!(Lookup::Channel.read("{}"), Some(Answer::Uploads(None)));
    match Lookup::Playlist.read(PLAYLIST) {
        Some(Answer::Listing(uploads)) => {
            assert_eq!(uploads.len(), 2);
            assert_eq!(uploads[0].video_id, "v1");
            assert_eq!(uploads[0].title, Some("One".to_string()));
            assert_eq!(uploads[1], listed("v2"));
        }
        other => panic!("unexpected {:?}", other),
    }
    let waiting = Lookup::Statistics { uploads: vec![listed("v")], next: 0, videos: Vec::new() };
    assert_eq!(
        waiting.read(r#"{"items": [{"contentDetails": {"duration": "PT1S"}, "statistics": {}}]}"#),
        Some(Answer::Statistics { duration: Some("PT1S".to_string()), view_count: None })
    );
    assert_eq!(waiting.read("{}"), Some(Answer::Statistics { duration: None, view_count: None }));
    assert_eq!(waiting.read("{"), None);
    assert_eq!(Lookup::Search.read(""), None);
}

#[test]
fn lookup_accepts_only_the_answer_it_waits_for() {
    assert_eq!(
        Lookup::Search.accept(Some(Answer::Channel(Some("UC1".to_string()))), "K"),
        LookupStep::Request {
            url: "https://www.googleapis.com/youtube/v3/channels?part=contentDetails&id=UC1&key=K"
                .to_string(),
            then: Lookup::Channel
        }
    );
    assert_eq!(
        Lookup::Search.accept(Some(Answer::Uploads(Some("UU1".to_string()))), "K"),
        LookupStep::Finish(Err(LookupError::Transport))
    );
    assert_eq!(
        Lookup::Channel.accept(Some(Answer::Listing(vec![listed("v")])), "K"),
        LookupStep::Finish(Err(LookupError::Transport))
    );
    assert_eq!(
        Lookup::Playlist.accept(Some(Answer::Channel(None)), "K"),
        LookupStep::Finish(Err(LookupError::Transport))
    );
    assert_eq!(
        Lookup::Playlist.accept(Some(Answer::Listing(vec![listed("v7")])), "K"),
        LookupStep::Request {
            url: "https://www.googleapis.com/youtube/v3/videos?part=contentDetails,statistics&id=v7&key=K"
                .to_string(),
            then: Lookup::Statistics { uploads: vec![listed("v7")], next: 0, videos: Vec::new() }
        }
    );
    assert_eq!(Lookup::Search.accept(None, "K"), LookupStep::Finish(Err(LookupError::Transport)));
}
