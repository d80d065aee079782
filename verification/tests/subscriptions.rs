use subscription_feed::error::FeedError;
use subscription_feed::pagination::{Page, Pager, PagerStep};
use subscription_feed::subscriptions::{
    decode_channel_page, decode_raw_page, subscriptions_page_url, AuthCallbackQuery, ResolverStep,
    SubscriptionResolver, UNAUTHORIZED,
};

fn page(ids: &[&str], token: Option<&str>) -> Page<String> {
    Page {
        items: ids.iter().map(|id| id.to_string()).collect(),
        next_page_token: token.map(|token| token.to_string()),
    }
}

fn subscription(channel_id: &str) -> String {
    format!("{{\"snippet\": {{\"resourceId\": {{\"channelId\": \"{}\"}}}}}}", channel_id)
}

#[test]
fn callback_query_holds_code_and_state() {
    let query = AuthCallbackQuery { code: "4/abc".to_string(), state: "xyz".to_string() };
    assert_eq!(query.clone(), query);
    assert_eq!(query.code, "4/abc");
    assert_eq!(query.state, "xyz");
}

#[test]
fn subscriptions_url_carries_the_token_when_there_is_one() {
    assert_eq!(
        subscriptions_page_url(&None),
        "https://www.googleapis.com/youtube/v3/subscriptions?part=snippet&mine=true&maxResults=50"
    );
    assert_eq!(
        subscriptions_page_url(&Some("CAUQAA".to_string())),
        "https://www.googleapis.com/youtube/v3/subscriptions?part=snippet&mine=true&maxResults=50&pageToken=CAUQAA"
    );
    let resolver = SubscriptionResolver::new();
    assert_eq!(resolver.request_url(), subscriptions_page_url(&None));
    let later = SubscriptionResolver {
        pager: Pager { items: vec!["UC1".to_string()], cursor: Some("T".to_string()) },
    };
    assert_eq!(later.request_url(), subscriptions_page_url(&Some("T".to_string())));
}

#[test]
fn channel_page_is_decoded_from_json() {
    let body = format!(
        "{{\"items\": [{}, {{\"snippet\": {{}}}}, {}, 5, {}], \"nextPageToken\": \"N\"}}",
        subscription("UC1"),
        subscription("UC2"),
        subscription("UC1")
    );
    assert_eq!(decode_channel_page(&body), Some(page(&["UC1", "UC2", "UC1"], Some("N"))));
    assert_eq!(decode_channel_page("{\"items\": []}"), Some(page(&[], None)));
    assert_eq!(decode_channel_page("{}"), Some(page(&[], None)));
    assert_eq!(decode_channel_page("not json"), None);
}

#[test]
fn raw_page_keeps_the_items_untouched() {
    let body = "{\"items\": [{\"a\": 1}, \"two\", [3]], \"nextPageToken\": \"N\"}";
    let decoded = decode_raw_page(body).unwrap();
    assert_eq!(decoded.next_page_token, Some("N".to_string()));
    assert_eq!(decoded.items.len(), 3);
    assert_eq!(decoded.items[0].to_string(), "{\"a\":1}");
    assert_eq!(decoded.items[1].to_string(), "\"two\"");
    assert_eq!(decoded.items[2].to_string(), "[3]");
    let without = decode_raw_page("{\"kind\": \"x\"}").unwrap();
    assert!(without.items.is_empty());
    assert_eq!(without.next_page_token, None);
    assert!(decode_raw_page("{").is_none());
}

#[test]
fn raw_pages_are_gathered_by_a_pager() {
    let first = decode_raw_page("{\"items\": [1, 2], \"nextPageToken\": \"second\"}").unwrap();
    let second = decode_raw_page("{\"items\": [3]}").unwrap();
    let pager = match Pager::new().accept(Ok(first)) {
        PagerStep::Next(pager) => pager,
        _ => panic!("a further page was named"),
    };
    match pager.accept(Ok(second)) {
        PagerStep::Complete(items) => {
            let texts: Vec<String> = items.iter().map(|item| item.to_string()).collect();
            assert_eq!(texts, vec!["1", "2", "3"]);
        }
        _ => panic!("the listing was over"),
    }
}

#[test]
fn resolver_gathers_channels_in_order_of_arrival() {
    let resolver = SubscriptionResolver::new();
    let resolver = match resolver.accept(Ok(page(&["UC1", "UC2"], Some("second")))) {
        ResolverStep::Next(next) => next,
        other => panic!("unexpected {:?}", other),
    };
    assert_eq!(resolver.pager.cursor, Some("second".to_string()));
    let resolver = match resolver.accept(Ok(page(&[], Some("third")))) {
        ResolverStep::Next(next) => next,
        other => panic!("unexpected {:?}", other),
    };
    assert_eq!(
        resolver.accept(Ok(page(&["UC3", "UC1"], None))),
        ResolverStep::Complete(vec![
            "UC1".to_string(),
            "UC2".to_string(),
            "UC3".to_string(),
            "UC1".to_string()
        ])
    );
}

#[test]
fn rejected_token_yields_unauthorized_and_no_partial_list() {
    assert_eq!(UNAUTHORIZED, 401);
    let first = SubscriptionResolver::new().accept(Err(FeedError::Upstream(401)));
    assert_eq!(first, ResolverStep::Failed(FeedError::Unauthorized));

    let resolver = match SubscriptionResolver::new().accept(Ok(page(&["UC1"], Some("second")))) {
        ResolverStep::Next(next) => next,
        other => panic!("unexpected {:?}", other),
    };
    assert_eq!(
        resolver.accept(Err(FeedError::Upstream(401))),
        ResolverStep::Failed(FeedError::Unauthorized)
    );
}

#[test]
fn other_failures_are_reported_as_they_are() {
    for error in [
        FeedError::Upstream(403),
        FeedError::Upstream(500),
        FeedError::Transport,
        FeedError::RateLimitedExhausted,
        FeedError::Unauthorized,
    ] {
        assert_eq!(SubscriptionResolver::new().accept(Err(error)), ResolverStep::Failed(error));
    }
}

#[test]
fn resolver_fails_on_a_repeated_token() {
    let resolver = match SubscriptionResolver::new().accept(Ok(page(&["UC1"], Some("loop")))) {
        ResolverStep::Next(next) => next,
        other => panic!("unexpected {:?}", other),
    };
    assert_eq!(
        resolver.accept(Ok(page(&["UC2"], Some("loop")))),
        ResolverStep::Failed(FeedError::Pagination)
    );
}

#[test]
fn subscription_resolver_takes_undecoded_outcomes() {
    let body = format!("{{\"items\": [{}], \"nextPageToken\": \"second\"}}", subscription("UC9"));
    let resolver = match SubscriptionResolver::new().accept_outcome(Ok(body)) {
        ResolverStep::Next(next) => next,
        other => panic!("unexpected {:?}", other),
    };
    assert_eq!(resolver.pager.items, vec!["UC9".to_string()]);
    let body = format!("{{\"items\": [{}]}}", subscription("UC8"));
    assert_eq!(
        resolver.accept_outcome(Ok(body)),
        ResolverStep::Complete(vec!["UC9".to_string(), "UC8".to_string()])
    );
    assert_eq!(
        SubscriptionResolver::new().accept_outcome(Ok("<html>".to_string())),
        ResolverStep::Failed(FeedError::Transport)
    );
    assert_eq!(
        SubscriptionResolver::new().accept_outcome(Err(FeedError::Upstream(401))),
        ResolverStep::Failed(FeedError::Unauthorized)
    );
}
