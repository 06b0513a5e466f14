//! Episode search in the backend's database: the request, the reply, and the
//! records that come back.

use crate::error::{check_status, status_outcome, SearchError};
use crate::http::{Method, Reply, Request, RequestView};
use crate::text::same_count;
use vstd::prelude::*;
use vstd::string::StringExecFns;
use vstd::std_specs::cmp::PartialEqSpecImpl;

verus! {

/// An episode that a database search found, with its podcast.
#[derive(Debug)]
#[allow(non_snake_case)]
pub struct SearchEpisode {
    pub PodcastID: i32,
    pub PodcastName: String,
    pub ArtworkURL: String,
    pub Author: String,
    pub Categories: String,
    pub Description: String,
    pub EpisodeCount: i32,
    pub FeedURL: String,
    pub WebsiteURL: String,
    pub Explicit: i32,
    pub UserID: i32,
    pub EpisodeID: i32,
    pub EpisodeTitle: String,
    pub EpisodeDescription: String,
    pub EpisodeURL: String,
    pub EpisodeArtwork: String,
    pub EpisodePubDate: String,
    pub EpisodeDuration: i32,
    pub ListenDuration: Option<i32>,
}

/// `SearchEpisode` as a mathematical value: every text a sequence of characters.
#[allow(non_snake_case)]
pub struct SearchEpisodeView {
    pub PodcastID: i32,
    pub PodcastName: Seq<char>,
    pub ArtworkURL: Seq<char>,
    pub Author: Seq<char>,
    pub Categories: Seq<char>,
    pub Description: Seq<char>,
    pub EpisodeCount: i32,
    pub FeedURL: Seq<char>,
    pub WebsiteURL: Seq<char>,
    pub Explicit: i32,
    pub UserID: i32,
    pub EpisodeID: i32,
    pub EpisodeTitle: Seq<char>,
    pub EpisodeDescription: Seq<char>,
    pub EpisodeURL: Seq<char>,
    pub EpisodeArtwork: Seq<char>,
    pub EpisodePubDate: Seq<char>,
    pub EpisodeDuration: i32,
    pub ListenDuration: Option<i32>,
}

impl DeepView for SearchEpisode {
    type V = SearchEpisodeView;

    open spec fn deep_view(&self) -> SearchEpisodeView {
        SearchEpisodeView {
            PodcastID: self.PodcastID,
            PodcastName: self.PodcastName@,
            ArtworkURL: self.ArtworkURL@,
            Author: self.Author@,
            Categories: self.Categories@,
            Description: self.Description@,
            EpisodeCount: self.EpisodeCount,
            FeedURL: self.FeedURL@,
            WebsiteURL: self.WebsiteURL@,
            Explicit: self.Explicit,
            UserID: self.UserID,
            EpisodeID: self.EpisodeID,
            EpisodeTitle: self.EpisodeTitle@,
            EpisodeDescription: self.EpisodeDescription@,
            EpisodeURL: self.EpisodeURL@,
            EpisodeArtwork: self.EpisodeArtwork@,
            EpisodePubDate: self.EpisodePubDate@,
            EpisodeDuration: self.EpisodeDuration,
            ListenDuration: self.ListenDuration,
        }
    }
}

impl Clone for SearchEpisode {
    fn clone(&self) -> (r: SearchEpisode)
        ensures
            r.deep_view() == self.deep_view(),
    {
        SearchEpisode {
            PodcastID: self.PodcastID,
            PodcastName: self.PodcastName.clone(),
            ArtworkURL: self.ArtworkURL.clone(),
            Author: self.Author.clone(),
            Categories: self.Categories.clone(),
            Description: self.Description.clone(),
            EpisodeCount: self.EpisodeCount,
            FeedURL: self.FeedURL.clone(),
            WebsiteURL: self.WebsiteURL.clone(),
            Explicit: self.Explicit,
            UserID: self.UserID,
            EpisodeID: self.EpisodeID,
            EpisodeTitle: self.EpisodeTitle.clone(),
            EpisodeDescription: self.EpisodeDescription.clone(),
            EpisodeURL: self.EpisodeURL.clone(),
            EpisodeArtwork: self.EpisodeArtwork.clone(),
            EpisodePubDate: self.EpisodePubDate.clone(),
            EpisodeDuration: self.EpisodeDuration,
            ListenDuration: self.ListenDuration,
        }
    }
}

impl PartialEq for SearchEpisode {
    fn eq(&self, other: &SearchEpisode) -> (r: bool) {
        self.PodcastID == other.PodcastID
            && self.PodcastName == other.PodcastName
            && self.ArtworkURL == other.ArtworkURL
            && self.Author == other.Author
            && self.Categories == other.Categories
            && self.Description == other.Description
            && self.EpisodeCount == other.EpisodeCount
            && self.FeedURL == other.FeedURL
            && self.WebsiteURL == other.WebsiteURL
            && self.Explicit == other.Explicit
            && self.UserID == other.UserID
            && self.EpisodeID == other.EpisodeID
            && self.EpisodeTitle == other.EpisodeTitle
            && self.EpisodeDescription == other.EpisodeDescription
            && self.EpisodeURL == other.EpisodeURL
            && self.EpisodeArtwork == other.EpisodeArtwork
            && self.EpisodePubDate == other.EpisodePubDate
            && self.EpisodeDuration == other.EpisodeDuration
            && same_count(self.ListenDuration, other.ListenDuration)
    }
}

impl PartialEqSpecImpl for SearchEpisode {
    open spec fn obeys_eq_spec() -> bool {
        true
    }

    open spec fn eq_spec(&self, other: &SearchEpisode) -> bool {
        self.deep_view() == other.deep_view()
    }
}

/// What a database search asks for: a free text, on behalf of a user.
#[derive(Debug, Clone, PartialEq)]
pub struct SearchRequest {
    pub search_term: String,
    pub user_id: i32,
}

/// What a database search gives: the episodes found, in the backend's order.
#[derive(Debug)]
pub struct SearchResponse {
    pub data: Vec<SearchEpisode>,
}

impl DeepView for SearchResponse {
    type V = Seq<SearchEpisodeView>;

    open spec fn deep_view(&self) -> Seq<SearchEpisodeView> {
        self.data.deep_view()
    }
}

impl Clone for SearchResponse {
    fn clone(&self) -> (r: SearchResponse)
        ensures
            r.deep_view() == self.deep_view(),
    {
        let mut data: Vec<SearchEpisode> = Vec::new();
        let mut i: usize = 0;
        while i < self.data.len()
            invariant
                i <= self.data@.len(),
                data@.len() == i,
                forall|k: int|
                    0 <= k < i ==> (#[trigger] data@[k]).deep_view() == self.data@[k].deep_view(),
            decreases self.data@.len() - i,
        {
            data.push(self.data[i].clone());
            i += 1;
        }
        SearchResponse { data }
    }
}

impl PartialEq for SearchResponse {
    fn eq(&self, other: &SearchResponse) -> (r: bool) {
        if self.data.len() != other.data.len() {
            assert(self.data.deep_view().len() != other.data.deep_view().len());
            return false;
        }
        let mut i: usize = 0;
        while i < self.data.len()
            invariant
                i <= self.data@.len(),
                self.data@.len() == other.data@.len(),
                forall|k: int|
                    0 <= k < i ==> (#[trigger] self.data@[k]).deep_view()
                        == other.data@[k].deep_view(),
            decreases self.data@.len() - i,
        {
            if !(self.data[i] == other.data[i]) {
                assert(self.data.deep_view()[i as int] != other.data.deep_view()[i as int]);
                return false;
            }
            i += 1;
        }
        assert(self.data.deep_view() =~= other.data.deep_view());
        true
    }
}

impl PartialEqSpecImpl for SearchResponse {
    open spec fn obeys_eq_spec() -> bool {
        true
    }

    open spec fn eq_spec(&self, other: &SearchResponse) -> bool {
        self.deep_view() == other.deep_view()
    }
}

/// The request that searches the database: a `POST` to the backend with the
/// credential, carrying the search as its body.
pub open spec fn search_request_of(server: Seq<char>, key: Seq<char>, body: Seq<char>)
    -> RequestView {
    RequestView {
        method: Method::Post,
        url: server + "/api/data/search_data"@,
        headers: seq![("Api-Key"@, key), ("Content-Type"@, "application/json"@)],
        body: Some(body),
    }
}

/// Builds the request that searches the database; `body` is the search in the
/// backend's notation. Without a credential there is no request, and the failure is
/// `ConfigMissing`.
pub fn search_database_request(server_name: &String, api_key: &Option<String>, body: String) -> (r:
    Result<Request, SearchError>)
    ensures
        match *api_key {
            Some(key) => r matches Ok(request) && request.deep_view() == search_request_of(
                server_name@,
                key@,
                body@,
            ),
            None => r matches Err(SearchError::ConfigMissing(text)) && text@
                == "API key is missing"@,
        },
{
    match api_key {
        None => Err(SearchError::ConfigMissing("API key is missing".to_owned())),
        Some(key) => {
            let mut url = server_name.clone();
            url.append("/api/data/search_data");
            let mut headers: Vec<(String, String)> = Vec::new();
            headers.push(("Api-Key".to_owned(), key.clone()));
            headers.push(("Content-Type".to_owned(), "application/json".to_owned()));
            let request = Request { method: Method::Post, url, headers, body: Some(body) };
            assert(request.headers.deep_view() =~= seq![
                ("Api-Key"@, key@),
                ("Content-Type"@, "application/json"@),
            ]);
            Ok(request)
        },
    }
}

/// What the status of a database search reply means: success for 200 to 299, else
/// a transport failure that carries the status text.
pub fn search_database_status(reply: &Reply) -> (r: Result<(), SearchError>)
    ensures
        status_outcome(*reply, "Failed to search database: "@, r),
{
    check_status(reply, "Failed to search database: ")
}

} // verus!
