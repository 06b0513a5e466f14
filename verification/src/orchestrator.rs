//! The course of one directory search: probe the endpoint, query it, publish the
//! canonical records. The caller sends what `step` asks for and reports back what
//! came of it.

use crate::database::{SearchEpisode, SearchEpisodeView, SearchResponse};
use crate::directory::{
    connection_request, podcast_info_request, search_url, unified_results, unify_results,
    PodcastSearchResult, PodcastSearchResultView, UnifiedPodcast, UnifiedPodcastView,
};
use crate::error::{ErrorKind, SearchError, SearchErrorView};
use crate::http::{Method, Request, RequestView};
use vstd::prelude::*;

verus! {

/// The state that the searches share: the records that were published last, and the
/// loading flag. Whoever writes a field replaces it whole.
#[derive(Debug, Clone, PartialEq)]
pub struct SearchStore {
    /// The canonical records of the last directory search that succeeded.
    pub search_results: Option<Vec<UnifiedPodcast>>,
    /// The episodes of the last database search that succeeded.
    pub search_episodes: Option<SearchResponse>,
    /// Whether a search is under way.
    pub is_loading: Option<bool>,
    /// The identifiers of the episodes whose descriptions are shown in full.
    pub expanded_descriptions: Vec<String>,
}

/// `SearchStore` as a mathematical value: every text a sequence of characters.
pub struct SearchStoreView {
    pub search_results: Option<Seq<UnifiedPodcastView>>,
    pub search_episodes: Option<Seq<SearchEpisodeView>>,
    pub is_loading: Option<bool>,
    pub expanded_descriptions: Seq<Seq<char>>,
}

impl DeepView for SearchStore {
    type V = SearchStoreView;

    open spec fn deep_view(&self) -> SearchStoreView {
        SearchStoreView {
            search_results: self.search_results.deep_view(),
            search_episodes: self.search_episodes.deep_view(),
            is_loading: self.is_loading,
            expanded_descriptions: self.expanded_descriptions.deep_view(),
        }
    }
}

impl SearchStore {
    /// The store before any search: nothing published, nothing loading.
    pub fn new() -> (r: SearchStore)
        ensures
            r.search_results is None,
            r.search_episodes is None,
            r.is_loading is None,
            r.expanded_descriptions@.len() == 0,
    {
        SearchStore {
            search_results: None,
            search_episodes: None,
            is_loading: None,
            expanded_descriptions: Vec::new(),
        }
    }
}

impl Default for SearchStore {
    fn default() -> (r: SearchStore)
        ensures
            r.search_results is None,
            r.search_episodes is None,
            r.is_loading is None,
            r.expanded_descriptions@.len() == 0,
    {
        SearchStore::new()
    }
}

/// Where a submission stands.
#[derive(Debug)]
pub enum SearchPhase {
    /// Nothing has been submitted.
    Idle,
    /// The probe is out. `query` is the search to send once it succeeds.
    Probing { query: Request },
    /// The search is out.
    Querying,
    /// The search succeeded and its records are published. Final.
    Unified,
    /// The probe or the search failed. Final.
    Failed,
}

/// What happened.
#[derive(Debug)]
pub enum SearchEvent {
    /// The user submitted `term` for the provider `index`.
    Submitted { api_url: Option<String>, term: String, index: String },
    /// The probe came back.
    ProbeFinished(Result<(), SearchError>),
    /// The search came back.
    QueryFinished(Result<PodcastSearchResult, SearchError>),
}

/// What the caller is to do next.
#[derive(Debug)]
pub enum SearchAction {
    /// Nothing.
    Nothing,
    /// Send the probe and report how it ended.
    Probe(Request),
    /// Send the search and report how it ended.
    Query(Request),
    /// Show the results view at this route.
    Navigate(String),
    /// Show the failure.
    Report(SearchError),
}

/// `SearchPhase` as a mathematical value: every text a sequence of characters.
pub enum SearchPhaseView {
    Idle,
    Probing { query: RequestView },
    Querying,
    Unified,
    Failed,
}

/// `SearchEvent` as a mathematical value: every text a sequence of characters.
pub enum SearchEventView {
    Submitted { api_url: Option<Seq<char>>, term: Seq<char>, index: Seq<char> },
    ProbeFinished(Result<(), SearchErrorView>),
    QueryFinished(Result<PodcastSearchResultView, SearchErrorView>),
}

/// `SearchAction` as a mathematical value: every text a sequence of characters.
pub enum SearchActionView {
    Nothing,
    Probe(RequestView),
    Query(RequestView),
    Navigate(Seq<char>),
    Report(SearchErrorView),
}

impl DeepView for SearchPhase {
    type V = SearchPhaseView;

    open spec fn deep_view(&self) -> SearchPhaseView {
        match self {
            SearchPhase::Idle => SearchPhaseView::Idle,
            SearchPhase::Probing { query } => SearchPhaseView::Probing { query: query.deep_view() },
            SearchPhase::Querying => SearchPhaseView::Querying,
            SearchPhase::Unified => SearchPhaseView::Unified,
            SearchPhase::Failed => SearchPhaseView::Failed,
        }
    }
}

impl DeepView for SearchEvent {
    type V = SearchEventView;

    open spec fn deep_view(&self) -> SearchEventView {
        match self {
            SearchEvent::Submitted { api_url, term, index } => SearchEventView::Submitted {
                api_url: api_url.deep_view(),
                term: term@,
                index: index@,
            },
            SearchEvent::ProbeFinished(outcome) => SearchEventView::ProbeFinished(
                match outcome {
                    Ok(_) => Ok(()),
                    Err(e) => Err(e.deep_view()),
                },
            ),
            SearchEvent::QueryFinished(outcome) => SearchEventView::QueryFinished(
                match outcome {
                    Ok(result) => Ok(result.deep_view()),
                    Err(e) => Err(e.deep_view()),
                },
            ),
        }
    }
}

impl DeepView for SearchAction {
    type V = SearchActionView;

    open spec fn deep_view(&self) -> SearchActionView {
        match self {
            SearchAction::Nothing => SearchActionView::Nothing,
            SearchAction::Probe(request) => SearchActionView::Probe(request.deep_view()),
            SearchAction::Query(request) => SearchActionView::Query(request.deep_view()),
            SearchAction::Navigate(route) => SearchActionView::Navigate(route@),
            SearchAction::Report(e) => SearchActionView::Report(e.deep_view()),
        }
    }
}

/// A `GET` of `url`, without headers or body.
pub open spec fn plain_get(url: Seq<char>) -> RequestView {
    RequestView { method: Method::Get, url, headers: Seq::empty(), body: None }
}

/// The route of the results view.
pub open spec fn results_route() -> Seq<char> {
    "/pod_layout"@
}

/// The failure of a submission without an endpoint.
pub open spec fn endpoint_missing() -> SearchErrorView {
    SearchErrorView { kind: ErrorKind::ConfigMissing, message: "API URL is missing"@ }
}

/// The store with the loading flag set to `flag` and all else as it was.
pub open spec fn with_loading(store: SearchStoreView, flag: bool) -> SearchStoreView {
    SearchStoreView { is_loading: Some(flag), ..store }
}

/// The outcome of a step: the next phase, what to do, and the store.
pub struct Outcome {
    pub phase: SearchPhaseView,
    pub action: SearchActionView,
    pub store: SearchStoreView,
}

/// One step of a submission.
///
/// A submission starts the course anew, wherever it stood: with an endpoint it sets
/// the loading flag and sends the probe; without one it fails at once. A probe that
/// succeeds sends the search, one that fails ends the course. A search that succeeds
/// publishes its canonical records and leads to the results view; one that fails ends
/// the course. Every end of the course clears the loading flag, and a failure leaves
/// what was published as it was. An event that the phase does not wait for changes
/// nothing.
pub open spec fn transition(phase: SearchPhaseView, event: SearchEventView, store: SearchStoreView)
    -> Outcome {
    match (phase, event) {
        (_, SearchEventView::Submitted { api_url: Some(base), term, index }) => Outcome {
            phase: SearchPhaseView::Probing { query: plain_get(search_url(base, term, index)) },
            action: SearchActionView::Probe(plain_get(base)),
            store: with_loading(store, true),
        },
        (_, SearchEventView::Submitted { api_url: None, .. }) => Outcome {
            phase: SearchPhaseView::Failed,
            action: SearchActionView::Report(endpoint_missing()),
            store: with_loading(store, false),
        },
        (SearchPhaseView::Probing { query }, SearchEventView::ProbeFinished(Ok(_))) => Outcome {
            phase: SearchPhaseView::Querying,
            action: SearchActionView::Query(query),
            store,
        },
        (SearchPhaseView::Probing { .. }, SearchEventView::ProbeFinished(Err(e))) => Outcome {
            phase: SearchPhaseView::Failed,
            action: SearchActionView::Report(e),
            store: with_loading(store, false),
        },
        (SearchPhaseView::Querying, SearchEventView::QueryFinished(Ok(result))) => Outcome {
            phase: SearchPhaseView::Unified,
            action: SearchActionView::Navigate(results_route()),
            store: SearchStoreView {
                search_results: Some(unified_results(result)),
                is_loading: Some(false),
                ..store
            },
        },
        (SearchPhaseView::Querying, SearchEventView::QueryFinished(Err(e))) => Outcome {
            phase: SearchPhaseView::Failed,
            action: SearchActionView::Report(e),
            store: with_loading(store, false),
        },
        _ => Outcome { phase, action: SearchActionView::Nothing, store },
    }
}

/// Takes one step of a submission: see `transition`. The episodes of the database
/// search and the expanded descriptions are never touched.
pub fn step(phase: SearchPhase, event: SearchEvent, store: &mut SearchStore) -> (r: (
    SearchPhase,
    SearchAction,
))
    ensures
        transition(phase.deep_view(), event.deep_view(), old(store).deep_view()) == (Outcome {
            phase: r.0.deep_view(),
            action: r.1.deep_view(),
            store: final(store).deep_view(),
        }),
        final(store).search_episodes == old(store).search_episodes,
        final(store).expanded_descriptions == old(store).expanded_descriptions,
{
    match event {
        SearchEvent::Submitted { api_url, term, index } => {
            match connection_request(&api_url) {
                Err(e) => {
                    store.is_loading = Some(false);
                    (SearchPhase::Failed, SearchAction::Report(e))
                },
                Ok(probe) => {
                    match podcast_info_request(&term, &api_url, index.as_str()) {
                        Err(e) => {
                            store.is_loading = Some(false);
                            (SearchPhase::Failed, SearchAction::Report(e))
                        },
                        Ok(query) => {
                            store.is_loading = Some(true);
                            assert(probe.headers.deep_view() =~= Seq::empty());
                            assert(query.headers.deep_view() =~= Seq::empty());
                            (SearchPhase::Probing { query }, SearchAction::Probe(probe))
                        },
                    }
                },
            }
        },
        SearchEvent::ProbeFinished(outcome) => {
            match phase {
                SearchPhase::Probing { query } => match outcome {
                    Ok(_) => (SearchPhase::Querying, SearchAction::Query(query)),
                    Err(e) => {
                        store.is_loading = Some(false);
                        (SearchPhase::Failed, SearchAction::Report(e))
                    },
                },
                other => (other, SearchAction::Nothing),
            }
        },
        SearchEvent::QueryFinished(outcome) => {
            match phase {
                SearchPhase::Querying => match outcome {
                    Ok(result) => {
                        store.search_results = Some(unify_results(result));
                        store.is_loading = Some(false);
                        (SearchPhase::Unified, SearchAction::Navigate("/pod_layout".to_owned()))
                    },
                    Err(e) => {
                        store.is_loading = Some(false);
                        (SearchPhase::Failed, SearchAction::Report(e))
                    },
                },
                other => (other, SearchAction::Nothing),
            }
        },
    }
}

/// Whether a phase ends a submission.
pub open spec fn is_final(phase: SearchPhaseView) -> bool {
    phase is Unified || phase is Failed
}

/// Whether the loading flag fits the phase: set while the probe or the search is
/// out, cleared once the submission has ended.
pub open spec fn flag_fits(phase: SearchPhaseView, store: SearchStoreView) -> bool {
    &&& is_final(phase) ==> store.is_loading == Some(false)
    &&& (phase is Probing || phase is Querying) ==> store.is_loading == Some(true)
}

/// The outcome of a course of events, taken one after the other.
pub open spec fn course(phase: SearchPhaseView, events: Seq<SearchEventView>, store: SearchStoreView)
    -> Outcome
    decreases events.len(),
{
    if events.len() == 0 {
        Outcome { phase, action: SearchActionView::Nothing, store }
    } else {
        let before = course(phase, events.drop_last(), store);
        transition(before.phase, events.last(), before.store)
    }
}

/// Every step that ends a submission clears the loading flag, on the failure paths
/// as on the success path; and every step keeps the flag fitting the phase.
pub proof fn lemma_end_clears_loading(
    phase: SearchPhaseView,
    event: SearchEventView,
    store: SearchStoreView,
)
    ensures
        is_final(transition(phase, event, store).phase) && (!is_final(phase) || event is Submitted)
            ==> transition(phase, event, store).store.is_loading == Some(false),
        flag_fits(phase, store) ==> flag_fits(
            transition(phase, event, store).phase,
            transition(phase, event, store).store,
        ),
{
}

/// However a course of events runs from the idle phase, the loading flag is not left
/// set once the submission has ended.
pub proof fn lemma_flag_never_stuck(events: Seq<SearchEventView>, store: SearchStoreView)
    ensures
        flag_fits(
            course(SearchPhaseView::Idle, events, store).phase,
            course(SearchPhaseView::Idle, events, store).store,
        ),
        is_final(course(SearchPhaseView::Idle, events, store).phase) ==> course(
            SearchPhaseView::Idle,
            events,
            store,
        ).store.is_loading == Some(false),
    decreases events.len(),
{
    if events.len() > 0 {
        lemma_flag_never_stuck(events.drop_last(), store);
        let before = course(SearchPhaseView::Idle, events.drop_last(), store);
        lemma_end_clears_loading(before.phase, events.last(), before.store);
    }
}

/// The submission of `term` for the provider `index` to the endpoint `base`.
pub open spec fn submitted(base: Seq<char>, term: Seq<char>, index: Seq<char>) -> SearchEventView {
    SearchEventView::Submitted { api_url: Some(base), term, index }
}

/// A submission whose probe and search both succeed ends with the canonical records
/// of the reply published, the loading flag cleared and the results view asked for.
/// This holds for every reply, the empty one too.
pub proof fn lemma_successful_submission(
    store: SearchStoreView,
    base: Seq<char>,
    term: Seq<char>,
    index: Seq<char>,
    reply: PodcastSearchResultView,
)
    ensures
        course(
            SearchPhaseView::Idle,
            seq![
                submitted(base, term, index),
                SearchEventView::ProbeFinished(Ok(())),
                SearchEventView::QueryFinished(Ok(reply)),
            ],
            store,
        ) == (Outcome {
            phase: SearchPhaseView::Unified,
            action: SearchActionView::Navigate(results_route()),
            store: SearchStoreView {
                search_results: Some(unified_results(reply)),
                is_loading: Some(false),
                ..store
            },
        }),
{
    let first = seq![submitted(base, term, index)];
    let second = first.push(SearchEventView::ProbeFinished(Ok(())));
    let third = second.push(SearchEventView::QueryFinished(Ok(reply)));
    reveal_with_fuel(course, 4);
    assert(second.drop_last() =~= first);
    assert(third.drop_last() =~= second);
    assert(third =~= seq![
        submitted(base, term, index),
        SearchEventView::ProbeFinished(Ok(())),
        SearchEventView::QueryFinished(Ok(reply)),
    ]);
}

/// A submission whose probe fails ends failed: the failure is reported, the loading
/// flag is cleared, no search is sent, and what was published stays as it was.
pub proof fn lemma_failed_probe(
    store: SearchStoreView,
    base: Seq<char>,
    term: Seq<char>,
    index: Seq<char>,
    failure: SearchErrorView,
)
    ensures
        course(
            SearchPhaseView::Idle,
            seq![submitted(base, term, index), SearchEventView::ProbeFinished(Err(failure))],
            store,
        ) == (Outcome {
            phase: SearchPhaseView::Failed,
            action: SearchActionView::Report(failure),
            store: SearchStoreView { is_loading: Some(false), ..store },
        }),
{
    let first = seq![submitted(base, term, index)];
    let second = first.push(SearchEventView::ProbeFinished(Err(failure)));
    reveal_with_fuel(course, 3);
    assert(second.drop_last() =~= first);
    assert(second =~= seq![
        submitted(base, term, index),
        SearchEventView::ProbeFinished(Err(failure)),
    ]);
}

/// A step that fails leaves what was published as it was: only the loading flag
/// changes.
pub proof fn lemma_failure_keeps_published(
    phase: SearchPhaseView,
    event: SearchEventView,
    store: SearchStoreView,
)
    requires
        transition(phase, event, store).phase is Failed,
    ensures
        transition(phase, event, store).store.search_results == store.search_results,
        transition(phase, event, store).store.search_episodes == store.search_episodes,
        transition(phase, event, store).store.expanded_descriptions == store.expanded_descriptions,
{
}

/// Within a submission the probe comes before the search and the search before the
/// publication: the search is sent only on a probe that succeeded, and records are
/// published only on a search that succeeded. No step sends anything after a failure.
pub proof fn lemma_probe_query_publish(
    phase: SearchPhaseView,
    event: SearchEventView,
    store: SearchStoreView,
)
    ensures
        transition(phase, event, store).action is Probe ==> event is Submitted,
        transition(phase, event, store).action is Query ==> phase is Probing && event
            is ProbeFinished && event->ProbeFinished_0 is Ok,
        transition(phase, event, store).action is Navigate ==> phase is Querying
            && transition(phase, event, store).phase is Unified,
        transition(phase, event, store).store.search_results != store.search_results ==> phase
            is Querying && event is QueryFinished && event->QueryFinished_0 is Ok,
        transition(phase, event, store).phase is Failed && !(phase is Failed) ==> transition(
            phase,
            event,
            store,
        ).action is Report,
{
}

/// Publishes the outcome of a database search. Episodes that were found replace
/// the ones published before, even where none was found; a failure leaves the store
/// as it was and is handed back to be reported. The loading flag and the directory
/// search's records are not touched.
pub fn publish_episodes(store: &mut SearchStore, outcome: Result<Vec<SearchEpisode>, SearchError>)
    -> (r: Option<SearchError>)
    ensures
        match outcome {
            Ok(found) => r is None && final(store).search_episodes == Some(
                SearchResponse { data: found },
            ),
            Err(e) => r == Some(e) && final(store).search_episodes == old(store).search_episodes,
        },
        final(store).search_results == old(store).search_results,
        final(store).is_loading == old(store).is_loading,
        final(store).expanded_descriptions == old(store).expanded_descriptions,
{
    match outcome {
        Ok(found) => {
            store.search_episodes = Some(SearchResponse { data: found });
            None
        },
        Err(e) => Some(e),
    }
}

} // verus!
