use subscription_feed::error::FeedError;
use subscription_feed::pagination::{Page, Pager, PagerStep};

fn page(items: &[u32], token: Option<&str>) -> Page<u32> {
    Page { items: items.to_vec(), next_page_token: token.map(|token| token.to_string()) }
}

struct Run {
    last: PagerStep<u32>,
    calls: usize,
    tokens: Vec<Option<String>>,
}

fn run(responses: Vec<Result<Page<u32>, FeedError>>) -> Run {
    let mut pager = Pager::new();
    let mut calls = 0;
    let mut tokens = Vec::new();
    for response in responses {
        calls += 1;
        tokens.push(pager.cursor.clone());
        match pager.accept(response) {
            PagerStep::Next(next) => pager = next,
            last => return Run { last, calls, tokens },
        }
    }
    Run { last: PagerStep::Next(pager), calls, tokens }
}

#[test]
fn new_pager_holds_nothing_and_sends_no_token() {
    let pager: Pager<u32> = Pager::new();
    assert_eq!(pager.items, Vec::<u32>::new());
    assert_eq!(pager.cursor, None);
}

#[test]
fn single_page_without_token_completes() {
    let run = run(vec![Ok(page(&[1, 2, 3], None))]);
    assert_eq!(run.last, PagerStep::Complete(vec![1, 2, 3]));
    assert_eq!(run.calls, 1);
    assert_eq!(run.tokens, vec![None]);
}

#[test]
fn pages_are_concatenated_in_order() {
    let run = run(vec![
        Ok(page(&[1, 2], Some("second"))),
        Ok(page(&[], Some("third"))),
        Ok(page(&[3], Some("fourth"))),
        Ok(page(&[4, 5, 6], None)),
        Ok(page(&[7], None)),
    ]);
    assert_eq!(run.last, PagerStep::Complete(vec![1, 2, 3, 4, 5, 6]));
    assert_eq!(run.calls, 4);
    assert_eq!(
        run.tokens,
        vec![None, Some("second".to_string()), Some("third".to_string()), Some("fourth".to_string())]
    );
}

#[test]
fn empty_token_ends_the_listing() {
    let run = run(vec![Ok(page(&[1], Some("next"))), Ok(page(&[2], Some(""))), Ok(page(&[3], None))]);
    assert_eq!(run.last, PagerStep::Complete(vec![1, 2]));
    assert_eq!(run.calls, 2);
}

#[test]
fn repeated_token_is_a_pagination_error() {
    let run = run(vec![
        Ok(page(&[1], Some("again"))),
        Ok(page(&[2], Some("again"))),
        Ok(page(&[3], None)),
    ]);
    assert_eq!(run.last, PagerStep::Failed { error: FeedError::Pagination, collected: vec![1, 2] });
    assert_eq!(run.calls, 2);
}

#[test]
fn token_seen_two_pages_ago_is_followed() {
    let run = run(vec![
        Ok(page(&[1], Some("a"))),
        Ok(page(&[2], Some("b"))),
        Ok(page(&[3], Some("a"))),
        Ok(page(&[4], None)),
    ]);
    assert_eq!(run.last, PagerStep::Complete(vec![1, 2, 3, 4]));
    assert_eq!(run.calls, 4);
}

#[test]
fn failed_page_propagates_its_error() {
    let first = run(vec![Err(FeedError::Transport), Ok(page(&[1], None))]);
    assert_eq!(first.last, PagerStep::Failed { error: FeedError::Transport, collected: vec![] });
    assert_eq!(first.calls, 1);

    let later = run(vec![
        Ok(page(&[1, 2], Some("second"))),
        Err(FeedError::Upstream(500)),
        Ok(page(&[3], None)),
    ]);
    assert_eq!(
        later.last,
        PagerStep::Failed { error: FeedError::Upstream(500), collected: vec![1, 2] }
    );
    assert_eq!(later.calls, 2);
}

#[test]
fn unfinished_listing_waits_for_the_next_page() {
    let run = run(vec![Ok(page(&[1], Some("second")))]);
    assert_eq!(
        run.last,
        PagerStep::Next(Pager { items: vec![1], cursor: Some("second".to_string()) })
    );
}
