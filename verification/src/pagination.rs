use vstd::prelude::*;
use crate::error::FeedError;
use crate::text::optional_text;

verus! {

/// One page of a listing: its items and, if more pages exist, the token that
/// asks for the next one.
#[derive(Debug, PartialEq, Eq)]
pub struct Page<T> {
    pub items: Vec<T>,
    pub next_page_token: Option<String>,
}

/// A [`Page`] as mathematical values.
pub struct PageView<T> {
    pub items: Seq<T>,
    pub next_page_token: Option<Seq<char>>,
}

impl<T> View for Page<T> {
    type V = PageView<T>;

    open spec fn view(&self) -> PageView<T> {
        PageView { items: self.items@, next_page_token: optional_text(self.next_page_token) }
    }
}

/// A listing that is being read page by page: the items gathered so far and
/// the continuation token that the pending request carries (none for the
/// first page).
#[derive(Debug, PartialEq, Eq)]
pub struct Pager<T> {
    pub items: Vec<T>,
    pub cursor: Option<String>,
}

/// A [`Pager`] as mathematical values.
pub struct PagerView<T> {
    pub items: Seq<T>,
    pub cursor: Option<Seq<char>>,
}

impl<T> View for Pager<T> {
    type V = PagerView<T>;

    open spec fn view(&self) -> PagerView<T> {
        PagerView { items: self.items@, cursor: optional_text(self.cursor) }
    }
}

/// What the caller does after a page request.
#[derive(Debug, PartialEq, Eq)]
pub enum PagerStep<T> {
    /// Request the page that the pager's cursor names and hand the response
    /// to this pager.
    Next(Pager<T>),
    /// The listing is read: all its items, in page order.
    Complete(Vec<T>),
    /// The listing failed. `collected` holds what had been gathered.
    Failed { error: FeedError, collected: Vec<T> },
}

/// A [`PagerStep`] as mathematical values.
pub enum PagerStepView<T> {
    Next(PagerView<T>),
    Complete(Seq<T>),
    Failed { error: FeedError, collected: Seq<T> },
}

impl<T> View for PagerStep<T> {
    type V = PagerStepView<T>;

    open spec fn view(&self) -> PagerStepView<T> {
        match *self {
            PagerStep::Next(pager) => PagerStepView::Next(pager@),
            PagerStep::Complete(items) => PagerStepView::Complete(items@),
            PagerStep::Failed { error, collected } => PagerStepView::Failed {
                error,
                collected: collected@,
            },
        }
    }
}

impl<T> PageView<T> {
    /// The page with `f` applied to each item.
    pub open spec fn map_items<U>(self, f: spec_fn(T) -> U) -> PageView<U> {
        PageView { items: self.items.map_values(f), next_page_token: self.next_page_token }
    }
}

impl<T> PagerView<T> {
    /// The pager with `f` applied to each item.
    pub open spec fn map_items<U>(self, f: spec_fn(T) -> U) -> PagerView<U> {
        PagerView { items: self.items.map_values(f), cursor: self.cursor }
    }
}

impl<T> PagerStepView<T> {
    /// The step with `f` applied to each item.
    pub open spec fn map_items<U>(self, f: spec_fn(T) -> U) -> PagerStepView<U> {
        match self {
            PagerStepView::Next(pager) => PagerStepView::Next(pager.map_items(f)),
            PagerStepView::Complete(items) => PagerStepView::Complete(items.map_values(f)),
            PagerStepView::Failed { error, collected } => PagerStepView::Failed {
                error,
                collected: collected.map_values(f),
            },
        }
    }
}

/// The response with `f` applied to each item of its page.
pub open spec fn map_response<T, U>(response: Result<PageView<T>, FeedError>, f: spec_fn(T) -> U)
    -> Result<PageView<U>, FeedError> {
    match response {
        Ok(page) => Ok(page.map_items(f)),
        Err(error) => Err(error),
    }
}

/// What a response holds, as mathematical values.
pub open spec fn response_view<T>(response: Result<Page<T>, FeedError>) -> Result<
    PageView<T>,
    FeedError,
> {
    match response {
        Ok(page) => Ok(page@),
        Err(error) => Err(error),
    }
}

/// The pager before its first request.
pub open spec fn initial<T>() -> PagerView<T> {
    PagerView { items: Seq::empty(), cursor: None }
}

/// The pager's rule. A failed request fails the listing with the request's
/// error. A page adds its items; the listing then is complete if the page
/// names no further page (no token, or an empty one), has failed if the page
/// hands back the very token it was requested with, and goes on with the
/// page's token otherwise.
pub open spec fn step<T>(pager: PagerView<T>, response: Result<PageView<T>, FeedError>)
    -> PagerStepView<T> {
    match response {
        Err(error) => PagerStepView::Failed { error, collected: pager.items },
        Ok(page) => {
            let items = pager.items + page.items;
            match page.next_page_token {
                None => PagerStepView::Complete(items),
                Some(token) => if token.len() == 0 {
                    PagerStepView::Complete(items)
                } else if pager.cursor == Some(token) {
                    PagerStepView::Failed { error: FeedError::Pagination, collected: items }
                } else {
                    PagerStepView::Next(PagerView { items, cursor: Some(token) })
                },
            }
        },
    }
}

/// Where a listing stands after some responses, and how many requests were
/// made to get there.
pub struct PagerRun<T> {
    pub last: PagerStepView<T>,
    pub calls: nat,
}

/// Runs the pager against the responses that the platform gives to the
/// successive requests. Responses behind the one that ends the listing are
/// never asked for.
pub open spec fn run<T>(pager: PagerView<T>, responses: Seq<Result<PageView<T>, FeedError>>)
    -> PagerRun<T>
    decreases responses.len(),
{
    if responses.len() == 0 {
        PagerRun { last: PagerStepView::Next(pager), calls: 0 }
    } else {
        match step(pager, responses[0]) {
            PagerStepView::Next(next) => {
                let rest = run(next, responses.drop_first());
                PagerRun { last: rest.last, calls: rest.calls + 1 }
            },
            last => PagerRun { last, calls: 1 },
        }
    }
}

/// The items of `pages`, page after page.
pub open spec fn all_items<T>(pages: Seq<PageView<T>>) -> Seq<T>
    decreases pages.len(),
{
    if pages.len() == 0 {
        Seq::empty()
    } else {
        pages[0].items + all_items(pages.drop_first())
    }
}

/// The responses that deliver `pages` one by one.
pub open spec fn delivered<T>(pages: Seq<PageView<T>>) -> Seq<Result<PageView<T>, FeedError>> {
    pages.map_values(|page: PageView<T>| Ok::<PageView<T>, FeedError>(page))
}

/// `page` names a further page.
pub open spec fn has_next<T>(page: PageView<T>) -> bool {
    page.next_page_token.is_some() && page.next_page_token.unwrap().len() > 0
}

/// `pages` is a listing as the platform serves it to a pager whose pending
/// request carries `cursor`: every page but the last names a further page,
/// the last names none, and no page hands back the token it was requested
/// with.
pub open spec fn is_listing<T>(cursor: Option<Seq<char>>, pages: Seq<PageView<T>>) -> bool {
    &&& pages.len() > 0
    &&& forall|i: int| 0 <= i < pages.len() - 1 ==> has_next(#[trigger] pages[i])
    &&& !has_next(pages.last())
    &&& pages.len() > 1 ==> pages[0].next_page_token != cursor
    &&& forall|i: int|
        1 <= i < pages.len() - 1 ==> (#[trigger] pages[i]).next_page_token != pages[i
            - 1].next_page_token
}

impl<T> Pager<T> {
    /// A pager that has requested nothing yet: its first request carries no
    /// token.
    pub fn new() -> (pager: Pager<T>)
        ensures
            pager@ == initial::<T>(),
    {
        Pager { items: Vec::new(), cursor: None }
    }

    /// Takes the response to the pending request and says what comes next.
    pub fn accept(self, response: Result<Page<T>, FeedError>) -> (next: PagerStep<T>)
        ensures
            next@ == step(self@, response_view(response)),
    {
        let mut items = self.items;
        match response {
            Err(error) => PagerStep::Failed { error, collected: items },
            Ok(page) => {
                let mut fresh = page.items;
                items.append(&mut fresh);
                match page.next_page_token {
                    None => PagerStep::Complete(items),
                    Some(token) => {
                        if token.as_str().is_empty() {
                            PagerStep::Complete(items)
                        } else {
                            let repeated = match &self.cursor {
                                Some(previous) => *previous == token,
                                None => false,
                            };
                            if repeated {
                                PagerStep::Failed { error: FeedError::Pagination, collected: items }
                            } else {
                                PagerStep::Next(Pager { items, cursor: Some(token) })
                            }
                        }
                    },
                }
            },
        }
    }
}

/// A pager that is served a listing of N pages makes exactly N requests and
/// ends with the items of all N pages, in page order, behind what it held
/// before.
pub proof fn law_listing_is_read_whole<T>(pager: PagerView<T>, pages: Seq<PageView<T>>)
    requires
        is_listing(pager.cursor, pages),
    ensures
        run(pager, delivered(pages)) == (PagerRun {
            last: PagerStepView::Complete(pager.items + all_items(pages)),
            calls: pages.len(),
        }),
    decreases pages.len(),
{
    let responses = delivered(pages);
    let rest = pages.drop_first();
    assert(responses[0] == Ok::<PageView<T>, FeedError>(pages[0]));
    assert(responses.drop_first() =~= delivered(rest));
    if pages.len() == 1 {
        assert(all_items(rest) =~= Seq::<T>::empty());
        assert(pager.items + all_items(pages) =~= pager.items + pages[0].items);
    } else {
        assert(has_next(pages[0]));
        let next = PagerView { items: pager.items + pages[0].items, cursor: pages[0].next_page_token };
        assert(step(pager, responses[0]) == PagerStepView::Next(next));
        assert(is_listing(next.cursor, rest)) by {
            assert(rest.last() == pages.last());
            assert forall|i: int| 0 <= i < rest.len() - 1 implies has_next(#[trigger] rest[i]) by {
                assert(rest[i] == pages[i + 1]);
            }
            assert forall|i: int| 1 <= i < rest.len() - 1 implies (#[trigger] rest[i]).next_page_token
                != rest[i - 1].next_page_token by {
                assert(rest[i] == pages[i + 1]);
                assert(rest[i - 1] == pages[i]);
            }
            if rest.len() > 1 {
                assert(rest[0] == pages[1]);
            }
        }
        law_listing_is_read_whole(next, rest);
        assert(next.items + all_items(rest) =~= pager.items + all_items(pages));
    }
}

/// A pager that is served the listing from its first page makes exactly as
/// many requests as the listing has pages and ends with the items of all of
/// them.
pub proof fn law_fresh_pager_reads_listing<T>(pages: Seq<PageView<T>>)
    requires
        is_listing(None, pages),
    ensures
        run(initial::<T>(), delivered(pages)) == (PagerRun {
            last: PagerStepView::Complete(all_items(pages)),
            calls: pages.len(),
        }),
{
    law_listing_is_read_whole(initial::<T>(), pages);
    assert(initial::<T>().items + all_items(pages) =~= all_items(pages));
}

/// A page that hands back the token it was requested with fails the listing
/// with a pagination error, and no further request is made, whatever the
/// platform would have answered.
pub proof fn law_repeated_token_is_fatal<T>(
    pager: PagerView<T>,
    page: PageView<T>,
    further: Seq<Result<PageView<T>, FeedError>>,
)
    requires
        has_next(page),
        page.next_page_token == pager.cursor,
    ensures
        step(pager, Ok(page)) == (PagerStepView::Failed {
            error: FeedError::Pagination,
            collected: pager.items + page.items,
        }),
        run(pager, seq![Ok(page)] + further) == (PagerRun {
            last: PagerStepView::Failed {
                error: FeedError::Pagination,
                collected: pager.items + page.items,
            },
            calls: 1,
        }),
{
    let responses = seq![Ok::<PageView<T>, FeedError>(page)] + further;
    assert(responses[0] == Ok::<PageView<T>, FeedError>(page));
}

/// A failed request ends the listing with the request's own error, and no
/// further request is made.
pub proof fn law_failed_request_is_final<T>(
    pager: PagerView<T>,
    error: FeedError,
    further: Seq<Result<PageView<T>, FeedError>>,
)
    ensures
        run(pager, seq![Err(error)] + further) == (PagerRun {
            last: PagerStepView::Failed { error, collected: pager.items },
            calls: 1,
        }),
{
    let responses = seq![Err::<PageView<T>, FeedError>(error)] + further;
    assert(responses[0] == Err::<PageView<T>, FeedError>(error));
}

/// The pager treats items as opaque: renaming the items before a step or
/// after it comes to the same.
pub proof fn lemma_step_commutes_with_map<T, U>(
    pager: PagerView<T>,
    response: Result<PageView<T>, FeedError>,
    f: spec_fn(T) -> U,
)
    ensures
        step(pager.map_items(f), map_response(response, f)) == step(pager, response).map_items(f),
{
    match response {
        Ok(page) => {
            assert((pager.items + page.items).map_values(f) =~= pager.items.map_values(f)
                + page.items.map_values(f));
        },
        Err(_) => {},
    }
}

} // verus!
