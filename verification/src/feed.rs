use vstd::prelude::*;
use vstd::seq_lib::{to_multiset_build, to_multiset_len};
use crate::models::{Timestamp, Video};

verus! {

/// No entry of `feed` is published before an entry that follows it.
pub open spec fn newest_first(feed: Seq<Video>) -> bool {
    forall|i: int, j: int|
        0 <= i < j < feed.len() ==> feed[i].published_at.is_at_or_after(feed[j].published_at)
}

/// The entries of `entries` published exactly at `instant`, in the order in
/// which `entries` holds them.
pub open spec fn published_at(entries: Seq<Video>, instant: Timestamp) -> Seq<Video> {
    entries.filter(|video: Video| video.published_at == instant)
}

/// `feed` is `entries` merged: it runs from the newest entry to the oldest,
/// and entries that share an instant are exactly those of `entries`, in the
/// order in which `entries` holds them. Hence nothing is lost, nothing is
/// added, and ties keep their encounter order.
pub open spec fn is_merged_feed(feed: Seq<Video>, entries: Seq<Video>) -> bool {
    &&& newest_first(feed)
    &&& forall|instant: Timestamp|
        #[trigger] published_at(feed, instant) == published_at(entries, instant)
}

/// The merge of `entries`: the one feed that is `entries` merged.
pub open spec fn merged(entries: Seq<Video>) -> Seq<Video> {
    choose|feed: Seq<Video>| is_merged_feed(feed, entries)
}

/// All the lists of `lists`, one after the other.
pub open spec fn concatenated(lists: Seq<Vec<Video>>) -> Seq<Video>
    decreases lists.len(),
{
    if lists.len() == 0 {
        Seq::empty()
    } else {
        concatenated(lists.drop_last()) + lists.last()@
    }
}

proof fn lemma_published_at_single(video: Video, instant: Timestamp)
    ensures
        published_at(seq![video], instant) == if video.published_at == instant {
            seq![video]
        } else {
            Seq::<Video>::empty()
        },
{
    let keep = |video: Video| video.published_at == instant;
    Seq::<Video>::empty().lemma_filter_prepend(video, keep);
    assert(Seq::<Video>::empty().filter(keep) =~= Seq::<Video>::empty()) by {
        Seq::<Video>::empty().lemma_filter_len(keep);
    }
    assert(seq![video] + Seq::<Video>::empty() =~= seq![video]);
}

proof fn lemma_published_at_none(entries: Seq<Video>, instant: Timestamp)
    requires
        forall|k: int| 0 <= k < entries.len() ==> (#[trigger] entries[k]).published_at != instant,
    ensures
        published_at(entries, instant) == Seq::<Video>::empty(),
{
    let keep = |video: Video| video.published_at == instant;
    assert(entries.all(|video: Video| !keep(video)));
    entries.lemma_all_neg_filter_empty(keep);
    assert(entries.filter(keep) =~= Seq::<Video>::empty());
}

/// Placing `video` in a sorted `feed`, behind every entry that is newer and
/// before every entry that is not, keeps the feed sorted and puts `video` in
/// front of the entries that share its instant.
proof fn lemma_insert_keeps_merged(feed: Seq<Video>, at: int, video: Video, later: Seq<Video>)
    requires
        is_merged_feed(feed, later),
        0 <= at <= feed.len(),
        forall|k: int| 0 <= k < at ==> video.published_at.is_before((#[trigger] feed[k]).published_at),
        at < feed.len() ==> !video.published_at.is_before(feed[at].published_at),
    ensures
        is_merged_feed(feed.insert(at, video), seq![video] + later),
{
    let grown = feed.insert(at, video);
    let head = feed.subrange(0, at);
    let tail = feed.subrange(at, feed.len() as int);
    assert(grown =~= head + seq![video] + tail);
    assert(feed =~= head + tail);
    assert forall|i: int, j: int| 0 <= i < j < grown.len() implies grown[i].published_at.is_at_or_after(
        grown[j].published_at,
    ) by {
        if j < at {
            assert(grown[i] == feed[i] && grown[j] == feed[j]);
        } else if j == at {
            assert(grown[i] == feed[i]);
        } else if i < at {
            assert(grown[i] == feed[i] && grown[j] == feed[j - 1]);
        } else if i == at {
            assert(grown[j] == feed[j - 1]);
            assert(feed[at].published_at.is_at_or_after(feed[j - 1].published_at));
        } else {
            assert(grown[i] == feed[i - 1] && grown[j] == feed[j - 1]);
        }
    }
    assert forall|instant: Timestamp| #[trigger]
        published_at(grown, instant) == published_at(seq![video] + later, instant) by {
        let keep = |entry: Video| entry.published_at == instant;
        Seq::filter_distributes_over_add(head + seq![video], tail, keep);
        Seq::filter_distributes_over_add(head, seq![video], keep);
        Seq::filter_distributes_over_add(head, tail, keep);
        Seq::filter_distributes_over_add(seq![video], later, keep);
        lemma_published_at_single(video, instant);
        assert(published_at(feed, instant) == published_at(later, instant));
        if video.published_at == instant {
            lemma_published_at_none(head, instant);
            assert(published_at(grown, instant) =~= seq![video] + published_at(tail, instant));
            assert(published_at(feed, instant) =~= published_at(tail, instant));
        } else {
            assert(published_at(grown, instant) =~= published_at(head, instant) + published_at(
                tail,
                instant,
            ));
            assert(published_at(seq![video] + later, instant) =~= published_at(later, instant));
        }
    }
}

/// The first position of the sorted `feed` whose entry is not newer than
/// `instant`.
fn insertion_point(feed: &Vec<Video>, instant: &Timestamp) -> (at: usize)
    ensures
        at <= feed.len(),
        forall|k: int| 0 <= k < at ==> instant.is_before((#[trigger] feed[k]).published_at),
        at < feed.len() ==> !instant.is_before(feed[at as int].published_at),
{
    let mut at: usize = 0;
    while at < feed.len() && instant.before(&feed[at].published_at)
        invariant
            at <= feed.len(),
            forall|k: int| 0 <= k < at ==> instant.is_before((#[trigger] feed[k]).published_at),
        decreases feed.len() - at,
    {
        at = at + 1;
    }
    at
}

/// Sorts `entries` from the newest to the oldest. The sort is stable: entries
/// published at the same instant keep the order they had in `entries`.
pub fn sort_newest_first(entries: Vec<Video>) -> (feed: Vec<Video>)
    ensures
        feed@ == merged(entries@),
        is_merged_feed(feed@, entries@),
{
    let ghost all = entries@;
    let mut rest = entries;
    let mut feed: Vec<Video> = Vec::new();
    proof {
        assert(all.subrange(all.len() as int, all.len() as int) =~= Seq::<Video>::empty());
        assert forall|instant: Timestamp| #[trigger]
            published_at(feed@, instant) == published_at(Seq::<Video>::empty(), instant) by {
            assert(feed@ =~= Seq::<Video>::empty());
        }
    }
    while rest.len() > 0
        invariant
            rest@ == all.subrange(0, rest.len() as int),
            rest.len() <= all.len(),
            is_merged_feed(feed@, all.subrange(rest.len() as int, all.len() as int)),
        decreases rest.len(),
    {
        let ghost later = all.subrange(rest.len() as int, all.len() as int);
        let video = rest.pop().unwrap();
        let at = insertion_point(&feed, &video.published_at);
        proof {
            lemma_insert_keeps_merged(feed@, at as int, video, later);
            assert(seq![video] + later =~= all.subrange(rest.len() as int, all.len() as int));
        }
        feed.insert(at, video);
    }
    proof {
        assert(all.subrange(0, all.len() as int) =~= all);
        law_merge_is_unique(feed@, merged(all), all);
    }
    feed
}

/// Merges the lists that the collectors handed back into one feed: the lists
/// are taken one after the other, in the order of `lists`, and the whole is
/// sorted from the newest entry to the oldest, ties in encounter order.
pub fn merge(lists: Vec<Vec<Video>>) -> (feed: Vec<Video>)
    ensures
        feed@ == merged(concatenated(lists@)),
        is_merged_feed(feed@, concatenated(lists@)),
{
    let ghost all = lists@;
    let mut lists = lists;
    let mut entries: Vec<Video> = Vec::new();
    let mut taken: usize = 0;
    let total = lists.len();
    while taken < total
        invariant
            lists.len() == total,
            all.len() == total,
            taken <= total,
            entries@ == concatenated(all.subrange(0, taken as int)),
            forall|k: int| taken <= k < total ==> lists@[k] == all[k],
        decreases total - taken,
    {
        let mut list: Vec<Video> = Vec::new();
        std::mem::swap(&mut list, &mut lists[taken]);
        proof {
            let before = all.subrange(0, taken as int);
            let through = all.subrange(0, taken + 1);
            assert(through.drop_last() =~= before);
            assert(through.last() == all[taken as int]);
        }
        entries.append(&mut list);
        taken = taken + 1;
    }
    proof {
        assert(all.subrange(0, total as int) =~= all);
    }
    sort_newest_first(entries)
}

proof fn lemma_count_survives_filter(entries: Seq<Video>, video: Video)
    ensures
        entries.to_multiset().count(video) == published_at(
            entries,
            video.published_at,
        ).to_multiset().count(video),
    decreases entries.len(),
{
    let keep = |entry: Video| entry.published_at == video.published_at;
    if entries.len() == 0 {
        assert(entries.filter(keep) =~= entries) by {
            entries.lemma_filter_len(keep);
        }
    } else {
        let rest = entries.drop_last();
        let last = entries.last();
        assert(entries =~= rest.push(last));
        lemma_count_survives_filter(rest, video);
        rest.lemma_filter_push(last, keep);
        to_multiset_build(rest, last);
        if keep(last) {
            to_multiset_build(rest.filter(keep), last);
        }
    }
}

/// A merged feed holds each entry exactly as often as the lists it was made
/// of: nothing is lost, nothing is added, nothing is changed.
pub proof fn law_merge_keeps_every_entry(feed: Seq<Video>, entries: Seq<Video>)
    requires
        is_merged_feed(feed, entries),
    ensures
        feed.to_multiset() == entries.to_multiset(),
        feed.len() == entries.len(),
{
    assert forall|video: Video|
        feed.to_multiset().count(video) == entries.to_multiset().count(video) by {
        lemma_count_survives_filter(feed, video);
        lemma_count_survives_filter(entries, video);
        assert(published_at(feed, video.published_at) == published_at(
            entries,
            video.published_at,
        ));
    }
    assert(feed.to_multiset() =~= entries.to_multiset());
    to_multiset_len(feed);
    to_multiset_len(entries);
}

proof fn lemma_sorted_feeds_with_equal_ties_are_equal(left: Seq<Video>, right: Seq<Video>)
    requires
        newest_first(left),
        newest_first(right),
        forall|instant: Timestamp|
            #[trigger] published_at(left, instant) == published_at(right, instant),
    ensures
        left == right,
    decreases left.len() + right.len(),
{
    if left.len() == 0 || right.len() == 0 {
        let (empty, other) = if left.len() == 0 {
            (left, right)
        } else {
            (right, left)
        };
        if other.len() > 0 {
            let instant = other[0].published_at;
            let keep = |entry: Video| entry.published_at == instant;
            other.lemma_filter_contains(keep, 0);
            empty.lemma_filter_len(keep);
            assert(published_at(empty, instant) == published_at(other, instant));
            assert(published_at(other, instant).contains(other[0]));
        }
        assert(left =~= right);
    } else {
        let left_rest = left.drop_first();
        let right_rest = right.drop_first();
        assert(left =~= seq![left[0]] + left_rest);
        assert(right =~= seq![right[0]] + right_rest);
        assert forall|instant: Timestamp|
            published_at(left, instant) == (if left[0].published_at == instant {
                seq![left[0]]
            } else {
                Seq::<Video>::empty()
            }) + published_at(left_rest, instant) && published_at(right, instant) == (if right[0].published_at
                == instant {
                seq![right[0]]
            } else {
                Seq::<Video>::empty()
            }) + published_at(right_rest, instant) by {
            let keep = |entry: Video| entry.published_at == instant;
            left_rest.lemma_filter_prepend(left[0], keep);
            right_rest.lemma_filter_prepend(right[0], keep);
        }
        // The first entry of each feed is found in the other, so neither is
        // newer than the other's first.
        let left_instant = left[0].published_at;
        let right_instant = right[0].published_at;
        assert(left_instant == right_instant) by {
            let on_left = published_at(right, left_instant);
            assert(on_left == published_at(left, left_instant));
            assert(on_left[0] == left[0]);
            assert(on_left.contains(left[0]));
            right.lemma_filter_contains_rev(
                |entry: Video| entry.published_at == left_instant,
                left[0],
            );
            let i = choose|i: int| 0 <= i < right.len() && right[i] == left[0];
            assert(right[0].published_at.is_at_or_after(right[i].published_at));
            let on_right = published_at(left, right_instant);
            assert(on_right == published_at(right, right_instant));
            assert(on_right[0] == right[0]);
            assert(on_right.contains(right[0]));
            left.lemma_filter_contains_rev(
                |entry: Video| entry.published_at == right_instant,
                right[0],
            );
            let j = choose|j: int| 0 <= j < left.len() && left[j] == right[0];
            assert(left[0].published_at.is_at_or_after(left[j].published_at));
        }
        assert(left[0] == right[0]) by {
            assert(published_at(left, left_instant)[0] == left[0]);
            assert(published_at(right, left_instant)[0] == right[0]);
        }
        assert(newest_first(left_rest)) by {
            assert forall|i: int, j: int| 0 <= i < j < left_rest.len() implies left_rest[i].published_at.is_at_or_after(
                left_rest[j].published_at,
            ) by {
                assert(left_rest[i] == left[i + 1] && left_rest[j] == left[j + 1]);
            }
        }
        assert(newest_first(right_rest)) by {
            assert forall|i: int, j: int| 0 <= i < j < right_rest.len() implies right_rest[i].published_at.is_at_or_after(
                right_rest[j].published_at,
            ) by {
                assert(right_rest[i] == right[i + 1] && right_rest[j] == right[j + 1]);
            }
        }
        assert forall|instant: Timestamp| #[trigger]
            published_at(left_rest, instant) == published_at(right_rest, instant) by {
            let whole_left = published_at(left, instant);
            let whole_right = published_at(right, instant);
            assert(whole_left == whole_right);
            if left[0].published_at == instant {
                assert(published_at(left_rest, instant) =~= whole_left.drop_first());
                assert(published_at(right_rest, instant) =~= whole_right.drop_first());
            } else {
                assert(published_at(left_rest, instant) =~= whole_left);
                assert(published_at(right_rest, instant) =~= whole_right);
            }
        }
        lemma_sorted_feeds_with_equal_ties_are_equal(left_rest, right_rest);
    }
}

/// The merged feed is determined by the entries and their order alone: two
/// feeds that are both a merge of the same entries are the same feed.
pub proof fn law_merge_is_unique(first: Seq<Video>, second: Seq<Video>, entries: Seq<Video>)
    requires
        is_merged_feed(first, entries),
        is_merged_feed(second, entries),
    ensures
        first == second,
{
    assert forall|instant: Timestamp| #[trigger]
        published_at(first, instant) == published_at(second, instant) by {
        assert(published_at(first, instant) == published_at(entries, instant));
        assert(published_at(second, instant) == published_at(entries, instant));
    }
    lemma_sorted_feeds_with_equal_ties_are_equal(first, second);
}

/// Where the sorted `feed` takes an entry published at `instant`: behind
/// every entry that is newer.
spec fn insertion_index(feed: Seq<Video>, instant: Timestamp) -> int
    decreases feed.len(),
{
    if feed.len() > 0 && instant.is_before(feed[0].published_at) {
        1 + insertion_index(feed.drop_first(), instant)
    } else {
        0
    }
}

proof fn lemma_insertion_index(feed: Seq<Video>, instant: Timestamp)
    ensures
        0 <= insertion_index(feed, instant) <= feed.len(),
        forall|k: int|
            0 <= k < insertion_index(feed, instant) ==> instant.is_before(
                (#[trigger] feed[k]).published_at,
            ),
        insertion_index(feed, instant) < feed.len() ==> !instant.is_before(
            feed[insertion_index(feed, instant)].published_at,
        ),
    decreases feed.len(),
{
    if feed.len() > 0 && instant.is_before(feed[0].published_at) {
        let rest = feed.drop_first();
        lemma_insertion_index(rest, instant);
        let at = insertion_index(feed, instant);
        assert forall|k: int| 0 <= k < at implies instant.is_before(
            (#[trigger] feed[k]).published_at,
        ) by {
            if k > 0 {
                assert(feed[k] == rest[k - 1]);
            }
        }
        if at < feed.len() {
            assert(feed[at] == rest[at - 1]);
        }
    }
}

/// Every list of entries has a merge: `merged` is the feed that
/// `is_merged_feed` describes, for whatever entries.
pub proof fn law_every_list_has_its_merge(entries: Seq<Video>)
    ensures
        is_merged_feed(merged(entries), entries),
    decreases entries.len(),
{
    if entries.len() == 0 {
        assert(is_merged_feed(entries, entries));
    } else {
        let later = entries.drop_first();
        law_every_list_has_its_merge(later);
        let feed = merged(later);
        let at = insertion_index(feed, entries[0].published_at);
        lemma_insertion_index(feed, entries[0].published_at);
        lemma_insert_keeps_merged(feed, at, entries[0], later);
        assert(seq![entries[0]] + later =~= entries);
        assert(is_merged_feed(feed.insert(at, entries[0]), entries));
    }
}

} // verus!
