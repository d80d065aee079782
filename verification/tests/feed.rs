use subscription_feed::feed::{merge, sort_newest_first};
use subscription_feed::models::{Timestamp, Video};

const JAN_1: i64 = 1_704_067_200;
const JAN_2: i64 = 1_704_153_600;
const JAN_3: i64 = 1_704_240_000;

fn video(id: &str, secs: i64, nanos: u32) -> Video {
    Video {
        url: format!("https://www.youtube.com/watch?v={}", id),
        video_id: id.to_string(),
        published_at: Timestamp::new(secs, nanos),
        title: format!("title of {}", id),
        thumbnail: String::new(),
        channel_title: "channel".to_string(),
    }
}

fn ids(feed: &[Video]) -> Vec<&str> {
    feed.iter().map(|entry| entry.video_id.as_str()).collect()
}

#[test]
fn sort_of_nothing_is_nothing() {
    assert_eq!(sort_newest_first(Vec::new()), Vec::new());
    assert_eq!(merge(Vec::new()), Vec::new());
    assert_eq!(merge(vec![Vec::new(), Vec::new()]), Vec::new());
}

#[test]
fn sort_puts_newest_first() {
    let feed = sort_newest_first(vec![
        video("a", JAN_1, 0),
        video("b", JAN_3, 0),
        video("c", JAN_2, 0),
    ]);
    assert_eq!(ids(&feed), vec!["b", "c", "a"]);
}

#[test]
fn sort_keeps_every_entry_whole() {
    let entries = vec![video("a", 5, 0), video("b", 9, 0), video("a", 5, 0), video("c", 7, 0)];
    let feed = sort_newest_first(entries.clone());
    assert_eq!(feed.len(), 4);
    assert_eq!(feed[0], entries[1]);
    assert_eq!(feed[1], entries[3]);
    assert_eq!(feed[2], entries[0]);
    assert_eq!(feed[3], entries[2]);
}

#[test]
fn sort_is_stable_for_equal_instants() {
    let feed = sort_newest_first(vec![
        video("first", 10, 0),
        video("second", 10, 0),
        video("newer", 11, 0),
        video("third", 10, 0),
        video("older", 9, 0),
        video("fourth", 10, 0),
    ]);
    assert_eq!(ids(&feed), vec!["newer", "first", "second", "third", "fourth", "older"]);
}

#[test]
fn sort_orders_by_nanoseconds_within_a_second() {
    let feed = sort_newest_first(vec![
        video("early", 10, 1),
        video("late", 10, 999_999_999),
        video("leap", 10, 1_500_000_000),
        video("next", 11, 0),
        video("start", 10, 0),
    ]);
    assert_eq!(ids(&feed), vec!["next", "leap", "late", "early", "start"]);
}

#[test]
fn sort_orders_instants_before_the_epoch() {
    let feed = sort_newest_first(vec![
        video("before", -1, 0),
        video("epoch", 0, 0),
        video("long_before", i64::MIN, 0),
        video("far", i64::MAX, u32::MAX),
    ]);
    assert_eq!(ids(&feed), vec!["far", "epoch", "before", "long_before"]);
}

#[test]
fn sort_leaves_a_sorted_feed_as_it_is() {
    let entries = vec![video("c", 3, 0), video("b", 2, 0), video("a", 1, 0)];
    assert_eq!(sort_newest_first(entries.clone()), entries);
}

#[test]
fn merge_orders_two_channels_with_a_tie() {
    let channel_a = vec![video("a3", JAN_3, 0), video("a1", JAN_1, 0), video("a2", JAN_2, 0)];
    let channel_b = vec![video("b2", JAN_2, 0)];
    let feed = merge(vec![channel_a, channel_b]);
    assert_eq!(ids(&feed), vec!["a3", "a2", "b2", "a1"]);
}

#[test]
fn merge_breaks_ties_by_list_order() {
    let feed = merge(vec![
        vec![video("x1", 4, 0)],
        vec![],
        vec![video("y1", 4, 0), video("y2", 4, 0)],
        vec![video("z1", 4, 0)],
    ]);
    assert_eq!(ids(&feed), vec!["x1", "y1", "y2", "z1"]);
    let swapped = merge(vec![vec![video("z1", 4, 0)], vec![video("x1", 4, 0)]]);
    assert_eq!(ids(&swapped), vec!["z1", "x1"]);
}
