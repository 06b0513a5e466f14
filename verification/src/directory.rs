//! Directory search results of two providers, and the one canonical podcast record
//! that both are turned into.

use crate::categories::{
    keys_distinct, lemma_numbered_distinct, lemma_numbered_lookup, lookup, numbered, Categories,
    CategoryList,
};
use crate::error::{check_status, status_outcome, SearchError};
use crate::http::{Method, Reply, Request};
use crate::release_date::{release_time, rfc3339_seconds, seconds_or_epoch};
use crate::text::{decimal, reads_as};
use vstd::prelude::*;
use vstd::string::StringExecFns;

verus! {

/// A podcast as the structured directory describes it.
#[derive(Debug, Clone, PartialEq)]
#[allow(non_snake_case)]
pub struct Podcast {
    pub id: i64,
    pub title: String,
    pub url: String,
    pub originalUrl: String,
    pub link: String,
    pub description: String,
    pub author: String,
    pub ownerName: String,
    pub image: String,
    pub artwork: String,
    pub lastUpdateTime: i64,
    pub categories: Option<Categories>,
    pub explicit: bool,
    pub episodeCount: i32,
}

/// A podcast as the flat search engine describes it.
#[derive(Debug, Clone, PartialEq)]
#[allow(non_snake_case)]
pub struct ITunesPodcast {
    pub wrapperType: String,
    pub kind: String,
    pub collectionId: i64,
    pub trackId: i64,
    pub artistName: String,
    pub trackName: String,
    pub collectionViewUrl: String,
    pub feedUrl: String,
    pub artworkUrl100: String,
    pub releaseDate: String,
    pub genres: Vec<String>,
    pub collectionExplicitness: String,
    pub trackCount: Option<i32>,
}

/// The canonical podcast record.
#[derive(Debug, Clone, PartialEq)]
#[allow(non_snake_case)]
pub struct UnifiedPodcast {
    pub id: i64,
    pub title: String,
    pub url: String,
    pub originalUrl: String,
    pub link: String,
    pub description: String,
    pub author: String,
    pub ownerName: String,
    pub image: String,
    pub artwork: String,
    pub lastUpdateTime: i64,
    pub categories: Option<Categories>,
    pub explicit: bool,
    pub episodeCount: i32,
}

/// The body of a directory search reply. One provider fills `status` and `feeds`, the
/// other `resultCount` and `results`.
#[derive(Debug, Clone, PartialEq)]
#[allow(non_snake_case)]
pub struct PodcastSearchResult {
    pub status: Option<String>,
    pub resultCount: Option<i32>,
    pub feeds: Option<Vec<Podcast>>,
    pub results: Option<Vec<ITunesPodcast>>,
}

/// `Podcast` as a mathematical value: every text a sequence of characters.
#[allow(non_snake_case)]
pub struct PodcastView {
    pub id: i64,
    pub title: Seq<char>,
    pub url: Seq<char>,
    pub originalUrl: Seq<char>,
    pub link: Seq<char>,
    pub description: Seq<char>,
    pub author: Seq<char>,
    pub ownerName: Seq<char>,
    pub image: Seq<char>,
    pub artwork: Seq<char>,
    pub lastUpdateTime: i64,
    pub categories: Option<CategoryList>,
    pub explicit: bool,
    pub episodeCount: i32,
}

/// `ITunesPodcast` as a mathematical value: every text a sequence of characters.
#[allow(non_snake_case)]
pub struct ITunesPodcastView {
    pub wrapperType: Seq<char>,
    pub kind: Seq<char>,
    pub collectionId: i64,
    pub trackId: i64,
    pub artistName: Seq<char>,
    pub trackName: Seq<char>,
    pub collectionViewUrl: Seq<char>,
    pub feedUrl: Seq<char>,
    pub artworkUrl100: Seq<char>,
    pub releaseDate: Seq<char>,
    pub genres: Seq<Seq<char>>,
    pub collectionExplicitness: Seq<char>,
    pub trackCount: Option<i32>,
}

/// `UnifiedPodcast` as a mathematical value: every text a sequence of characters.
#[allow(non_snake_case)]
pub struct UnifiedPodcastView {
    pub id: i64,
    pub title: Seq<char>,
    pub url: Seq<char>,
    pub originalUrl: Seq<char>,
    pub link: Seq<char>,
    pub description: Seq<char>,
    pub author: Seq<char>,
    pub ownerName: Seq<char>,
    pub image: Seq<char>,
    pub artwork: Seq<char>,
    pub lastUpdateTime: i64,
    pub categories: Option<CategoryList>,
    pub explicit: bool,
    pub episodeCount: i32,
}

/// `PodcastSearchResult` as a mathematical value: every text a sequence of characters.
#[allow(non_snake_case)]
pub struct PodcastSearchResultView {
    pub status: Option<Seq<char>>,
    pub resultCount: Option<i32>,
    pub feeds: Option<Seq<PodcastView>>,
    pub results: Option<Seq<ITunesPodcastView>>,
}

impl DeepView for Podcast {
    type V = PodcastView;

    open spec fn deep_view(&self) -> PodcastView {
        PodcastView {
            id: self.id,
            title: self.title@,
            url: self.url@,
            originalUrl: self.originalUrl@,
            link: self.link@,
            description: self.description@,
            author: self.author@,
            ownerName: self.ownerName@,
            image: self.image@,
            artwork: self.artwork@,
            lastUpdateTime: self.lastUpdateTime,
            categories: self.categories.deep_view(),
            explicit: self.explicit,
            episodeCount: self.episodeCount,
        }
    }
}

impl DeepView for ITunesPodcast {
    type V = ITunesPodcastView;

    open spec fn deep_view(&self) -> ITunesPodcastView {
        ITunesPodcastView {
            wrapperType: self.wrapperType@,
            kind: self.kind@,
            collectionId: self.collectionId,
            trackId: self.trackId,
            artistName: self.artistName@,
            trackName: self.trackName@,
            collectionViewUrl: self.collectionViewUrl@,
            feedUrl: self.feedUrl@,
            artworkUrl100: self.artworkUrl100@,
            releaseDate: self.releaseDate@,
            genres: self.genres.deep_view(),
            collectionExplicitness: self.collectionExplicitness@,
            trackCount: self.trackCount,
        }
    }
}

impl DeepView for UnifiedPodcast {
    type V = UnifiedPodcastView;

    open spec fn deep_view(&self) -> UnifiedPodcastView {
        UnifiedPodcastView {
            id: self.id,
            title: self.title@,
            url: self.url@,
            originalUrl: self.originalUrl@,
            link: self.link@,
            description: self.description@,
            author: self.author@,
            ownerName: self.ownerName@,
            image: self.image@,
            artwork: self.artwork@,
            lastUpdateTime: self.lastUpdateTime,
            categories: self.categories.deep_view(),
            explicit: self.explicit,
            episodeCount: self.episodeCount,
        }
    }
}

impl DeepView for PodcastSearchResult {
    type V = PodcastSearchResultView;

    open spec fn deep_view(&self) -> PodcastSearchResultView {
        PodcastSearchResultView {
            status: self.status.deep_view(),
            resultCount: self.resultCount,
            feeds: self.feeds.deep_view(),
            results: self.results.deep_view(),
        }
    }
}

/// The description that stands in for the one that the flat provider does not give.
pub open spec fn description_placeholder() -> Seq<char> {
    "Descriptions not provided by iTunes"@
}

/// Whether a record leaves nothing absent: it has a category table, empty or not.
pub open spec fn populated(podcast: UnifiedPodcastView) -> bool {
    podcast.categories is Some
}

/// The canonical record for an entry of the structured directory: every field as it
/// stands, and the empty category table where the entry has none.
pub open spec fn unify_directory(podcast: PodcastView) -> UnifiedPodcastView {
    UnifiedPodcastView {
        id: podcast.id,
        title: podcast.title,
        url: podcast.url,
        originalUrl: podcast.originalUrl,
        link: podcast.link,
        description: podcast.description,
        author: podcast.author,
        ownerName: podcast.ownerName,
        image: podcast.image,
        artwork: podcast.artwork,
        lastUpdateTime: podcast.lastUpdateTime,
        categories: match podcast.categories {
            Some(table) => Some(table),
            None => Some(CategoryList::empty()),
        },
        explicit: podcast.explicit,
        episodeCount: podcast.episodeCount,
    }
}

/// The canonical record for an entry of the flat provider, given what its release
/// date parsed to. The genres are keyed by their position; only the word `explicit`
/// marks the entry explicit; a missing episode count is 0.
pub open spec fn unify_flat(podcast: ITunesPodcastView, release: Option<i64>)
    -> UnifiedPodcastView {
    UnifiedPodcastView {
        id: podcast.trackId,
        title: podcast.trackName,
        url: podcast.feedUrl,
        originalUrl: podcast.feedUrl,
        link: podcast.collectionViewUrl,
        description: description_placeholder(),
        author: podcast.artistName,
        ownerName: podcast.artistName,
        image: podcast.artworkUrl100,
        artwork: podcast.artworkUrl100,
        lastUpdateTime: seconds_or_epoch(release),
        categories: Some(numbered(podcast.genres)),
        explicit: podcast.collectionExplicitness == "explicit"@,
        episodeCount: match podcast.trackCount {
            Some(count) => count,
            None => 0,
        },
    }
}

/// Whether a provider's explicitness word marks an entry explicit: `explicit` does,
/// `notExplicit` and every other word do not.
pub fn explicit_flag(word: &String) -> (r: bool)
    ensures
        r == (word@ == "explicit"@),
{
    reads_as(word, "explicit")
}

impl From<Podcast> for UnifiedPodcast {
    /// Turns an entry of the structured directory into the canonical record. Every
    /// entry has one, and it leaves nothing absent.
    fn from(podcast: Podcast) -> (r: UnifiedPodcast)
        ensures
            r.deep_view() == unify_directory(podcast.deep_view()),
            populated(r.deep_view()),
    {
        let categories = match podcast.categories {
            Some(table) => table,
            None => Categories::new(),
        };
        UnifiedPodcast {
            id: podcast.id,
            title: podcast.title,
            url: podcast.url,
            originalUrl: podcast.originalUrl,
            link: podcast.link,
            description: podcast.description,
            author: podcast.author,
            ownerName: podcast.ownerName,
            image: podcast.image,
            artwork: podcast.artwork,
            lastUpdateTime: podcast.lastUpdateTime,
            categories: Some(categories),
            explicit: podcast.explicit,
            episodeCount: podcast.episodeCount,
        }
    }
}

/// What `from` gives is stated by its `ensures`, over views. No `from_spec` is
/// offered: a specification cannot write down the `String` that a view belongs to.
impl vstd::std_specs::convert::FromSpecImpl<Podcast> for UnifiedPodcast {
    open spec fn obeys_from_spec() -> bool {
        false
    }

    open spec fn from_spec(podcast: Podcast) -> UnifiedPodcast {
        arbitrary()
    }
}

impl From<ITunesPodcast> for UnifiedPodcast {
    /// Turns an entry of the flat provider into the canonical record. Every entry has
    /// one, whatever its release date and explicitness word read.
    fn from(podcast: ITunesPodcast) -> (r: UnifiedPodcast)
        ensures
            r.deep_view() == unify_flat(podcast.deep_view(), rfc3339_seconds(podcast.releaseDate@)),
            populated(r.deep_view()),
            rfc3339_seconds(podcast.releaseDate@) is None ==> r.lastUpdateTime == 0,
            r.categories.deep_view() == Some(numbered(podcast.genres.deep_view())),
    {
        let release = release_time(podcast.releaseDate.as_str());
        let explicit = explicit_flag(&podcast.collectionExplicitness);
        let mut description = String::new();
        description.append("Descriptions not provided by iTunes");
        UnifiedPodcast {
            id: podcast.trackId,
            title: podcast.trackName,
            url: podcast.feedUrl.clone(),
            originalUrl: podcast.feedUrl,
            link: podcast.collectionViewUrl,
            description,
            author: podcast.artistName.clone(),
            ownerName: podcast.artistName,
            image: podcast.artworkUrl100.clone(),
            artwork: podcast.artworkUrl100,
            lastUpdateTime: release,
            categories: Some(Categories::from_names(podcast.genres)),
            explicit,
            episodeCount: match podcast.trackCount {
                Some(count) => count,
                None => 0,
            },
        }
    }
}

/// What `from` gives is stated by its `ensures`, over views. No `from_spec` is
/// offered: a specification cannot write down the `String` that a view belongs to.
impl vstd::std_specs::convert::FromSpecImpl<ITunesPodcast> for UnifiedPodcast {
    open spec fn obeys_from_spec() -> bool {
        false
    }

    open spec fn from_spec(podcast: ITunesPodcast) -> UnifiedPodcast {
        arbitrary()
    }
}

/// An entry of a search reply, in the shape of the provider that it came from.
#[derive(Debug, Clone, PartialEq)]
pub enum ProviderResult {
    /// An entry of the structured directory.
    PodcastIndex(Podcast),
    /// An entry of the flat provider.
    ITunes(ITunesPodcast),
}

/// `ProviderResult` as a mathematical value: every text a sequence of characters.
pub enum ProviderResultView {
    PodcastIndex(PodcastView),
    ITunes(ITunesPodcastView),
}

impl DeepView for ProviderResult {
    type V = ProviderResultView;

    open spec fn deep_view(&self) -> ProviderResultView {
        match self {
            ProviderResult::PodcastIndex(podcast) => ProviderResultView::PodcastIndex(
                podcast.deep_view(),
            ),
            ProviderResult::ITunes(podcast) => ProviderResultView::ITunes(podcast.deep_view()),
        }
    }
}

/// The canonical record for an entry of either provider.
pub open spec fn unified(raw: ProviderResultView) -> UnifiedPodcastView {
    match raw {
        ProviderResultView::PodcastIndex(podcast) => unify_directory(podcast),
        ProviderResultView::ITunes(podcast) => unify_flat(
            podcast,
            rfc3339_seconds(podcast.releaseDate),
        ),
    }
}

/// Turns an entry of either provider into the canonical record. There is no entry
/// for which it fails.
pub fn unify(raw: ProviderResult) -> (r: UnifiedPodcast)
    ensures
        r.deep_view() == unified(raw.deep_view()),
        populated(r.deep_view()),
{
    match raw {
        ProviderResult::PodcastIndex(podcast) => UnifiedPodcast::from(podcast),
        ProviderResult::ITunes(podcast) => UnifiedPodcast::from(podcast),
    }
}

/// The canonical record of every entry leaves nothing absent, and that of an entry
/// of the structured directory holds the entry's fields as they stand.
pub proof fn lemma_unified_is_populated(raw: ProviderResultView)
    ensures
        populated(unified(raw)),
        raw matches ProviderResultView::PodcastIndex(podcast) ==> {
            &&& unified(raw).id == podcast.id
            &&& unified(raw).title == podcast.title
            &&& unified(raw).url == podcast.url
            &&& unified(raw).originalUrl == podcast.originalUrl
            &&& unified(raw).link == podcast.link
            &&& unified(raw).description == podcast.description
            &&& unified(raw).author == podcast.author
            &&& unified(raw).ownerName == podcast.ownerName
            &&& unified(raw).image == podcast.image
            &&& unified(raw).artwork == podcast.artwork
            &&& unified(raw).lastUpdateTime == podcast.lastUpdateTime
            &&& unified(raw).explicit == podcast.explicit
            &&& unified(raw).episodeCount == podcast.episodeCount
            &&& podcast.categories is Some ==> unified(raw).categories == podcast.categories
        },
{
}

/// An entry of the flat provider whose release date does not parse has the update
/// time 0.
pub proof fn lemma_unparsable_release_is_epoch(podcast: ITunesPodcastView)
    requires
        rfc3339_seconds(podcast.releaseDate) is None,
    ensures
        unified(ProviderResultView::ITunes(podcast)).lastUpdateTime == 0,
{
}

/// The category keys of an entry of the flat provider are the numerals `0` to
/// `n - 1` in the order of its `n` genres, each once, each with its genre.
pub proof fn lemma_genres_keyed_by_position(podcast: ITunesPodcastView, i: int)
    requires
        0 <= i < podcast.genres.len(),
    ensures
        unified(ProviderResultView::ITunes(podcast)).categories is Some,
        unified(ProviderResultView::ITunes(podcast)).categories->0.len() == podcast.genres.len(),
        unified(ProviderResultView::ITunes(podcast)).categories->0[i] == (
            decimal(i as nat),
            podcast.genres[i],
        ),
        keys_distinct(unified(ProviderResultView::ITunes(podcast)).categories->0),
        lookup(unified(ProviderResultView::ITunes(podcast)).categories->0, decimal(i as nat))
            == Some(podcast.genres[i]),
{
    lemma_numbered_distinct(podcast.genres);
    lemma_numbered_lookup(podcast.genres, i);
}

/// The canonical records for a list of entries of the structured directory.
pub open spec fn unified_feeds(feeds: Seq<PodcastView>) -> Seq<UnifiedPodcastView> {
    Seq::new(feeds.len(), |i: int| unify_directory(feeds[i]))
}

/// The canonical records for a list of entries of the flat provider.
pub open spec fn unified_flat(results: Seq<ITunesPodcastView>) -> Seq<UnifiedPodcastView> {
    Seq::new(
        results.len(),
        |i: int| unify_flat(results[i], rfc3339_seconds(results[i].releaseDate)),
    )
}

/// The canonical records for a search reply: those of the structured directory's
/// entries, then those of the flat provider's, each list in its own order.
pub open spec fn unified_results(result: PodcastSearchResultView) -> Seq<UnifiedPodcastView> {
    (match result.feeds {
        Some(feeds) => unified_feeds(feeds),
        None => Seq::empty(),
    }) + (match result.results {
        Some(results) => unified_flat(results),
        None => Seq::empty(),
    })
}

/// Turns a search reply into canonical records, whichever provider it came from.
/// Every reply has its list; an entry is never dropped and none is added.
pub fn unify_results(result: PodcastSearchResult) -> (r: Vec<UnifiedPodcast>)
    ensures
        r.deep_view() == unified_results(result.deep_view()),
        forall|i: int| 0 <= i < r@.len() ==> populated(#[trigger] r.deep_view()[i]),
{
    let ghost view = result.deep_view();
    let mut unified: Vec<UnifiedPodcast> = Vec::new();
    match result.feeds {
        Some(feeds) => {
            for podcast in entries: feeds.into_iter()
                invariant
                    unified@.len() == entries.index(),
                    entries.seq().len() == view.feeds->0.len(),
                    forall|k: int|
                        0 <= k < entries.seq().len() ==> (#[trigger] entries.seq()[k]).deep_view()
                            == view.feeds->0[k],
                    forall|k: int|
                        0 <= k < unified@.len() ==> (#[trigger] unified@[k]).deep_view()
                            == unify_directory(view.feeds->0[k]),
            {
                unified.push(UnifiedPodcast::from(podcast));
            }
        },
        None => {},
    }
    let ghost first = unified@.len();
    match result.results {
        Some(results) => {
            for podcast in entries: results.into_iter()
                invariant
                    unified@.len() == first + entries.index(),
                    entries.seq().len() == view.results->0.len(),
                    forall|k: int|
                        0 <= k < entries.seq().len() ==> (#[trigger] entries.seq()[k]).deep_view()
                            == view.results->0[k],
                    forall|k: int|
                        0 <= k < first ==> (#[trigger] unified@[k]).deep_view() == unified_results(
                            view,
                        )[k],
                    forall|k: int|
                        first <= k < unified@.len() ==> (#[trigger] unified@[k]).deep_view()
                            == unified_flat(view.results->0)[k - first],
            {
                unified.push(UnifiedPodcast::from(podcast));
            }
        },
        None => {},
    }
    unified
}

/// The address of a directory search: the base, then the term and the provider's
/// key in the query, as they are given.
pub open spec fn search_url(base: Seq<char>, term: Seq<char>, index: Seq<char>) -> Seq<char> {
    base + "?query="@ + term + "&index="@ + index
}

/// Builds the directory search for `podcast_value` in the provider `search_index`: a
/// `GET` of `search_url`, without headers or body. Without an endpoint there is no
/// request, and the failure is `ConfigMissing`.
pub fn podcast_info_request(
    podcast_value: &String,
    search_api_url: &Option<String>,
    search_index: &str,
) -> (r: Result<Request, SearchError>)
    ensures
        match *search_api_url {
            Some(base) => r matches Ok(request) && request.method == Method::Get && request.url@
                == search_url(base@, podcast_value@, search_index@) && request.headers@.len() == 0
                && request.body is None,
            None => r matches Err(SearchError::ConfigMissing(text)) && text@
                == "API URL is not provided"@,
        },
{
    match search_api_url {
        None => Err(SearchError::ConfigMissing("API URL is not provided".to_owned())),
        Some(base) => {
            let mut url = base.clone();
            url.append("?query=");
            url.append(podcast_value.as_str());
            url.append("&index=");
            url.append(search_index);
            Ok(Request { method: Method::Get, url, headers: Vec::new(), body: None })
        },
    }
}

/// What the status of a directory search reply means: success for 200 to 299, else
/// a transport failure that carries the status text. The body is read only after a
/// success.
pub fn podcast_info_status(reply: &Reply) -> (r: Result<(), SearchError>)
    ensures
        status_outcome(*reply, "Failed to fetch podcast info: "@, r),
{
    check_status(reply, "Failed to fetch podcast info: ")
}

/// Builds the connectivity probe: a `GET` of the endpoint itself. Without an
/// endpoint there is no request, and the failure is `ConfigMissing`.
pub fn connection_request(search_api_url: &Option<String>) -> (r: Result<Request, SearchError>)
    ensures
        match *search_api_url {
            Some(base) => r matches Ok(request) && request.method == Method::Get && request.url@
                == base@ && request.headers@.len() == 0 && request.body is None,
            None => r matches Err(SearchError::ConfigMissing(text)) && text@
                == "API URL is missing"@,
        },
{
    match search_api_url {
        None => Err(SearchError::ConfigMissing("API URL is missing".to_owned())),
        Some(base) => Ok(
            Request { method: Method::Get, url: base.clone(), headers: Vec::new(), body: None },
        ),
    }
}

/// What the reply to the probe means: any status from 200 to 299 is a success, every
/// other one a transport failure that carries the status text.
pub fn connection_status(reply: &Reply) -> (r: Result<(), SearchError>)
    ensures
        status_outcome(*reply, "HTTP error occurred: "@, r),
{
    check_status(reply, "HTTP error occurred: ")
}

} // verus!
