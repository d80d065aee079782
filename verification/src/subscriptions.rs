use vstd::prelude::*;
use vstd::string::*;
use crate::error::FeedError;
use crate::executor::outcome_view;
use crate::json::{
    duplicate, elements_of, items_of, json_document, json_member, json_string, member,
    next_page_token_of, parse, string_of,
};
use crate::pagination::{
    lemma_step_commutes_with_map, map_response, response_view, step, Page, PageView, Pager,
    PagerStep, PagerStepView, PagerView,
};
use crate::text::{optional_text, owned, texts};

verus! {

/// The query of the redirect that ends the authorization dialogue.
#[derive(Clone, Debug, PartialEq, Eq)]
pub struct AuthCallbackQuery {
    pub code: String,
    pub state: String,
}

/// The status with which the platform rejects an access token.
pub const UNAUTHORIZED: u16 = 401;

/// The address of one page of the subscriptions of the authenticated user.
pub open spec fn subscriptions_url(page_token: Option<Seq<char>>) -> Seq<char> {
    let first =
        "https://www.googleapis.com/youtube/v3/subscriptions?part=snippet&mine=true&maxResults=50"@;
    match page_token {
        Some(token) => first + "&pageToken="@ + token,
        None => first,
    }
}

/// Writes the address of one page of the subscriptions of the authenticated
/// user.
pub fn subscriptions_page_url(page_token: &Option<String>) -> (url: String)
    ensures
        url@ == subscriptions_url(optional_text(*page_token)),
{
    let mut url = String::from_str(
        "https://www.googleapis.com/youtube/v3/subscriptions?part=snippet&mine=true&maxResults=50",
    );
    match page_token {
        Some(token) => {
            url.append("&pageToken=");
            url.append(token.as_str());
        },
        None => {},
    }
    url
}

/// The channel that a JSON value of a subscriptions page names, if it names
/// one.
pub open spec fn channel_id_of(value: serde_json::Value) -> Option<Seq<char>> {
    json_string(
        json_member(json_member(json_member(value, "snippet"@), "resourceId"@), "channelId"@),
    )
}

/// The page of channel ids that a JSON document of the subscriptions listing
/// stands for: the channels that the elements of its `items` name, in
/// order, and its `nextPageToken`.
pub open spec fn channel_page_of(document: serde_json::Value) -> PageView<Seq<char>> {
    PageView {
        items: items_of(document).filter_map(|value: serde_json::Value| channel_id_of(value)),
        next_page_token: next_page_token_of(document),
    }
}

/// The page of channel ids in the body of a response, if the body is a JSON
/// document.
pub open spec fn channel_page_in(body: Seq<char>) -> Option<PageView<Seq<char>>> {
    match json_document(body) {
        Some(document) => Some(channel_page_of(document)),
        None => None,
    }
}

/// The page of untouched items in the body of a response, if the body is a
/// JSON document.
pub open spec fn raw_page_in(body: Seq<char>) -> Option<PageView<serde_json::Value>> {
    match json_document(body) {
        Some(document) => Some(
            PageView { items: items_of(document), next_page_token: next_page_token_of(document) },
        ),
        None => None,
    }
}

/// What a decoded page of strings holds.
pub open spec fn text_page(page: Option<Page<String>>) -> Option<PageView<Seq<char>>> {
    match page {
        Some(page) => Some(page@.map_items(|string: String| string@)),
        None => None,
    }
}

/// What a decoded page of untouched items holds.
pub open spec fn raw_page(page: Option<Page<serde_json::Value>>) -> Option<
    PageView<serde_json::Value>,
> {
    match page {
        Some(page) => Some(page@),
        None => None,
    }
}

/// Decodes the body of a response of the subscriptions listing into the
/// channels it names. `None` means that the body is no JSON document.
pub fn decode_channel_page(body: &str) -> (page: Option<Page<String>>)
    ensures
        text_page(page) == channel_page_in(body@),
{
    match parse(body) {
        None => None,
        Some(document) => {
            let mut items: Vec<String> = Vec::new();
            match elements_of(member(&document, "items")) {
                None => {
                    proof {
                        assert(texts(items@) =~= Seq::<Seq<char>>::empty());
                    }
                },
                Some(elements) => {
                    let ghost pick = |value: serde_json::Value| channel_id_of(value);
                    let mut next: usize = 0;
                    proof {
                        assert(elements@.take(0) =~= Seq::<serde_json::Value>::empty());
                        assert(texts(items@) =~= Seq::<Seq<char>>::empty());
                    }
                    while next < elements.len()
                        invariant
                            next <= elements.len(),
                            pick == |value: serde_json::Value| channel_id_of(value),
                            texts(items@) == elements@.take(next as int).filter_map(pick),
                        decreases elements.len() - next,
                    {
                        let ghost before = items@;
                        let value = &elements[next];
                        let found = string_of(
                            member(member(member(value, "snippet"), "resourceId"), "channelId"),
                        );
                        proof {
                            assert(elements@.take(next + 1).drop_last() =~= elements@.take(
                                next as int,
                            ));
                            assert(elements@.take(next + 1).last() == elements@[next as int]);
                        }
                        match found {
                            Some(channel_id) => {
                                let channel_id = String::from_str(channel_id);
                                items.push(channel_id);
                                proof {
                                    assert(texts(items@) =~= texts(before) + seq![channel_id@]);
                                }
                            },
                            None => {},
                        }
                        next = next + 1;
                    }
                    proof {
                        assert(elements@.take(elements.len() as int) =~= elements@);
                    }
                },
            }
            let next_page_token = owned(string_of(member(&document, "nextPageToken")));
            Some(Page { items, next_page_token })
        },
    }
}

/// Decodes the body of a response of a listing into its untouched items.
/// `None` means that the body is no JSON document.
pub fn decode_raw_page(body: &str) -> (page: Option<Page<serde_json::Value>>)
    ensures
        raw_page(page) == raw_page_in(body@),
{
    match parse(body) {
        None => None,
        Some(document) => {
            let mut items: Vec<serde_json::Value> = Vec::new();
            match elements_of(member(&document, "items")) {
                None => {},
                Some(elements) => {
                    let mut next: usize = 0;
                    while next < elements.len()
                        invariant
                            next <= elements.len(),
                            items@ =~= elements@.take(next as int),
                        decreases elements.len() - next,
                    {
                        items.push(duplicate(&elements[next]));
                        next = next + 1;
                    }
                    proof {
                        assert(elements@.take(elements.len() as int) =~= elements@);
                    }
                },
            }
            let next_page_token = owned(string_of(member(&document, "nextPageToken")));
            Some(Page { items, next_page_token })
        },
    }
}

/// The error that the resolver reports for a failed call: a rejected access
/// token is reported as `Unauthorized`, every other failure as it is.
pub open spec fn reported(error: FeedError) -> FeedError {
    if error == FeedError::Upstream(UNAUTHORIZED) {
        FeedError::Unauthorized
    } else {
        error
    }
}

/// The resolver of the channels that the owner of a credential follows: a
/// listing of channel ids that is being read page by page.
#[derive(Debug, PartialEq, Eq)]
pub struct SubscriptionResolver {
    pub pager: Pager<String>,
}

impl View for SubscriptionResolver {
    type V = PagerView<Seq<char>>;

    open spec fn view(&self) -> PagerView<Seq<char>> {
        self.pager@.map_items(|string: String| string@)
    }
}

/// What the caller does after a page request of the resolver.
#[derive(Debug, PartialEq, Eq)]
pub enum ResolverStep {
    /// Request the page that the resolver's cursor names and hand the
    /// response to this resolver.
    Next(SubscriptionResolver),
    /// All the followed channels, in order of arrival.
    Complete(Vec<String>),
    /// The resolution failed; no channel is handed out.
    Failed(FeedError),
}

/// A [`ResolverStep`] as mathematical values.
pub enum ResolverStepView {
    Next(PagerView<Seq<char>>),
    Complete(Seq<Seq<char>>),
    Failed(FeedError),
}

impl View for ResolverStep {
    type V = ResolverStepView;

    open spec fn view(&self) -> ResolverStepView {
        match *self {
            ResolverStep::Next(resolver) => ResolverStepView::Next(resolver@),
            ResolverStep::Complete(channel_ids) => ResolverStepView::Complete(texts(channel_ids@)),
            ResolverStep::Failed(error) => ResolverStepView::Failed(error),
        }
    }
}

/// The resolver's rule: that of a pager, except that a rejected access token
/// is reported as `Unauthorized` and that a failure hands out nothing of what
/// had been gathered.
pub open spec fn resolve_step(
    resolver: PagerView<Seq<char>>,
    response: Result<PageView<Seq<char>>, FeedError>,
) -> ResolverStepView {
    match step(
        resolver,
        match response {
            Ok(page) => Ok(page),
            Err(error) => Err(reported(error)),
        },
    ) {
        PagerStepView::Next(pager) => ResolverStepView::Next(pager),
        PagerStepView::Complete(channel_ids) => ResolverStepView::Complete(channel_ids),
        PagerStepView::Failed { error, .. } => ResolverStepView::Failed(error),
    }
}

/// The response that the outcome of a call carries: the page in its body, or
/// the call's error; a body that is no JSON document counts as a transport
/// failure.
pub open spec fn channel_response_in(outcome: Result<Seq<char>, FeedError>) -> Result<
    PageView<Seq<char>>,
    FeedError,
> {
    match outcome {
        Ok(body) => match channel_page_in(body) {
            Some(page) => Ok(page),
            None => Err(FeedError::Transport),
        },
        Err(error) => Err(error),
    }
}

impl SubscriptionResolver {
    /// A resolver that has requested nothing yet.
    pub fn new() -> (resolver: SubscriptionResolver)
        ensures
            resolver@ == (PagerView::<Seq<char>> { items: Seq::empty(), cursor: None }),
    {
        let resolver = SubscriptionResolver { pager: Pager::new() };
        proof {
            assert(resolver.pager@.items.map_values(|string: String| string@) =~= Seq::<
                Seq<char>,
            >::empty());
        }
        resolver
    }

    /// The address of the pending page request. The request is authenticated
    /// with the access token of the credential.
    pub fn request_url(&self) -> (url: String)
        ensures
            url@ == subscriptions_url(self@.cursor),
    {
        subscriptions_page_url(&self.pager.cursor)
    }

    /// Takes the response to the pending page request and says what comes
    /// next.
    pub fn accept(self, response: Result<Page<String>, FeedError>) -> (next: ResolverStep)
        ensures
            next@ == resolve_step(
                self@,
                map_response(response_view(response), |string: String| string@),
            ),
    {
        let ghost rename = |string: String| string@;
        let ghost before = self.pager@;
        let response = match response {
            Ok(page) => Ok(page),
            Err(error) => Err(
                match error {
                    FeedError::Upstream(status) => if status == UNAUTHORIZED {
                        FeedError::Unauthorized
                    } else {
                        error
                    },
                    _ => error,
                },
            ),
        };
        proof {
            lemma_step_commutes_with_map(before, response_view(response), rename);
        }
        match self.pager.accept(response) {
            PagerStep::Next(pager) => ResolverStep::Next(SubscriptionResolver { pager }),
            PagerStep::Complete(channel_ids) => ResolverStep::Complete(channel_ids),
            PagerStep::Failed { error, .. } => ResolverStep::Failed(error),
        }
    }

    /// Takes the outcome of the call that made the pending page request, with
    /// the body of the response still undecoded, and says what comes next.
    pub fn accept_outcome(self, outcome: Result<String, FeedError>) -> (next: ResolverStep)
        ensures
            next@ == resolve_step(self@, channel_response_in(outcome_view(outcome))),
    {
        let response = match outcome {
            Ok(body) => match decode_channel_page(body.as_str()) {
                Some(page) => Ok(page),
                None => Err(FeedError::Transport),
            },
            Err(error) => Err(error),
        };
        self.accept(response)
    }
}

/// A rejected access token fails the resolution with `Unauthorized`, hands
/// out no channel and asks for nothing further.
pub proof fn law_rejected_token_is_unauthorized(resolver: PagerView<Seq<char>>)
    ensures
        resolve_step(resolver, Err(FeedError::Upstream(UNAUTHORIZED))) == ResolverStepView::Failed(
            FeedError::Unauthorized,
        ),
{
}

} // verus!
