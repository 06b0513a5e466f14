//! Feed ingestion: from a feed document to canonical episode records, and the
//! request and reply of the backend that fetches the document.

use crate::error::{ErrorKind, IngestError};
use crate::feed::{Feed, FeedItem, FeedItemView, FeedView};
use crate::feed_source::{parsed_feed, read_feed};
use crate::http::{is_success, percent_encoded, url_encode, Method, Reply, Request};
use crate::text::{
    copy_list, copy_optional, copy_or_empty, decimal, decimal_text, list_of, one_or_none, or_empty,
    reads_as,
};
use vstd::prelude::*;
use vstd::string::{StringExecFns, StringSliceAdditionalSpecFns};

verus! {

/// A canonical feed episode.
#[derive(Debug, Clone, PartialEq)]
pub struct Episode {
    pub title: Option<String>,
    pub description: Option<String>,
    pub pub_date: Option<String>,
    pub links: Vec<String>,
    pub enclosure_url: Option<String>,
    pub enclosure_length: Option<String>,
    pub artwork: Option<String>,
    pub content: Option<String>,
    pub authors: Vec<String>,
    pub guid: String,
    pub duration: Option<String>,
}

/// `Episode` as a mathematical value: every text a sequence of characters.
pub struct EpisodeView {
    pub title: Option<Seq<char>>,
    pub description: Option<Seq<char>>,
    pub pub_date: Option<Seq<char>>,
    pub links: Seq<Seq<char>>,
    pub enclosure_url: Option<Seq<char>>,
    pub enclosure_length: Option<Seq<char>>,
    pub artwork: Option<Seq<char>>,
    pub content: Option<Seq<char>>,
    pub authors: Seq<Seq<char>>,
    pub guid: Seq<char>,
    pub duration: Option<Seq<char>>,
}

impl DeepView for Episode {
    type V = EpisodeView;

    open spec fn deep_view(&self) -> EpisodeView {
        EpisodeView {
            title: self.title.deep_view(),
            description: self.description.deep_view(),
            pub_date: self.pub_date.deep_view(),
            links: self.links.deep_view(),
            enclosure_url: self.enclosure_url.deep_view(),
            enclosure_length: self.enclosure_length.deep_view(),
            artwork: self.artwork.deep_view(),
            content: self.content.deep_view(),
            authors: self.authors.deep_view(),
            guid: self.guid@,
            duration: self.duration.deep_view(),
        }
    }
}

/// The episodes of one feed, in document order.
#[derive(Debug, Clone, PartialEq)]
pub struct PodcastFeedResult {
    pub episodes: Vec<Episode>,
}

impl DeepView for PodcastFeedResult {
    type V = Seq<EpisodeView>;

    open spec fn deep_view(&self) -> Seq<EpisodeView> {
        self.episodes.deep_view()
    }
}

/// The most recent episodes, as the backend lists them.
#[derive(Debug)]
pub struct RecentEps {
    pub episodes: Vec<Episode>,
}

impl DeepView for RecentEps {
    type V = Seq<EpisodeView>;

    open spec fn deep_view(&self) -> Seq<EpisodeView> {
        self.episodes.deep_view()
    }
}

/// What a feed says of the podcast itself.
#[derive(Debug, Clone, PartialEq)]
pub struct PodcastInfo {
    pub title: String,
    pub description: String,
    pub artwork_url: Option<String>,
    pub author: String,
    pub website: String,
    pub categories: Vec<String>,
    pub explicit: bool,
    pub episode_count: i32,
}

/// `PodcastInfo` as a mathematical value: every text a sequence of characters.
pub struct PodcastInfoView {
    pub title: Seq<char>,
    pub description: Seq<char>,
    pub artwork_url: Option<Seq<char>>,
    pub author: Seq<char>,
    pub website: Seq<char>,
    pub categories: Seq<Seq<char>>,
    pub explicit: bool,
    pub episode_count: i32,
}

impl DeepView for PodcastInfo {
    type V = PodcastInfoView;

    open spec fn deep_view(&self) -> PodcastInfoView {
        PodcastInfoView {
            title: self.title@,
            description: self.description@,
            artwork_url: self.artwork_url.deep_view(),
            author: self.author@,
            website: self.website@,
            categories: self.categories.deep_view(),
            explicit: self.explicit,
            episode_count: self.episode_count,
        }
    }
}

/// The artwork that the channel offers to items without one of their own: the URL of
/// its image element, else the image of its podcast extension, else none.
pub open spec fn channel_artwork(feed: FeedView) -> Option<Seq<char>> {
    match feed.head.image_url {
        Some(url) => Some(url),
        None => match feed.extension {
            Some(extension) => extension.image,
            None => None,
        },
    }
}

/// The artwork that the item names itself.
pub open spec fn item_artwork(item: FeedItemView) -> Option<Seq<char>> {
    match item.extension {
        Some(extension) => extension.image,
        None => None,
    }
}

/// The artwork of an episode: the item's own, else the fallback.
pub open spec fn episode_artwork(item: FeedItemView, fallback: Option<Seq<char>>) -> Option<
    Seq<char>,
> {
    match item_artwork(item) {
        Some(url) => Some(url),
        None => fallback,
    }
}

/// The description of an episode: the item's content where it has one, else its
/// description, else the empty text.
pub open spec fn episode_description(item: FeedItemView) -> Seq<char> {
    match item.text.content {
        Some(content) => content,
        None => or_empty(item.text.description),
    }
}

/// The identifier of an episode: the item's own, else its title, else the empty text.
pub open spec fn episode_guid(item: FeedItemView) -> Seq<char> {
    match item.media.guid {
        Some(guid) => guid,
        None => or_empty(item.text.title),
    }
}

/// The canonical episode for a feed item, given the channel's artwork as fallback.
pub open spec fn episode_of(item: FeedItemView, fallback: Option<Seq<char>>) -> EpisodeView {
    EpisodeView {
        title: Some(or_empty(item.text.title)),
        description: Some(episode_description(item)),
        pub_date: item.text.pub_date,
        links: one_or_none(item.text.link),
        enclosure_url: match item.media.enclosure {
            Some(enclosure) => Some(enclosure.url),
            None => None,
        },
        enclosure_length: match item.media.enclosure {
            Some(enclosure) => Some(enclosure.length),
            None => None,
        },
        artwork: episode_artwork(item, fallback),
        content: item.text.content,
        authors: one_or_none(item.text.author),
        guid: episode_guid(item),
        duration: match item.extension {
            Some(extension) => extension.duration,
            None => None,
        },
    }
}

/// The canonical episodes of a feed: one for each item, in document order.
pub open spec fn episodes_of(feed: FeedView) -> Seq<EpisodeView> {
    Seq::new(feed.items.len(), |i: int| episode_of(feed.items[i], channel_artwork(feed)))
}

/// The channel's artwork.
pub fn feed_artwork(feed: &Feed) -> (r: Option<String>)
    ensures
        r.deep_view() == channel_artwork(feed.deep_view()),
{
    match &feed.head.image_url {
        Some(url) => Some(url.clone()),
        None => match &feed.extension {
            Some(extension) => copy_optional(&extension.image),
            None => None,
        },
    }
}

/// The canonical episode for one item of a feed.
pub fn episode_from_item(item: &FeedItem, fallback: &Option<String>) -> (r: Episode)
    ensures
        r.deep_view() == episode_of(item.deep_view(), fallback.deep_view()),
{
    let description = match &item.text.content {
        Some(content) => content.clone(),
        None => copy_or_empty(&item.text.description),
    };
    let (enclosure_url, enclosure_length) = match &item.media.enclosure {
        Some(enclosure) => (Some(enclosure.url.clone()), Some(enclosure.length.clone())),
        None => (None, None),
    };
    let (own_artwork, duration) = match &item.extension {
        Some(extension) => (copy_optional(&extension.image), copy_optional(&extension.duration)),
        None => (None, None),
    };
    let artwork = match own_artwork {
        Some(url) => Some(url),
        None => copy_optional(fallback),
    };
    let guid = match &item.media.guid {
        Some(guid) => guid.clone(),
        None => copy_or_empty(&item.text.title),
    };
    Episode {
        title: Some(copy_or_empty(&item.text.title)),
        description: Some(description),
        pub_date: copy_optional(&item.text.pub_date),
        links: list_of(&item.text.link),
        enclosure_url,
        enclosure_length,
        artwork,
        content: copy_optional(&item.text.content),
        authors: list_of(&item.text.author),
        guid,
        duration,
    }
}

/// The canonical episodes of a feed, one for each item, in document order: nothing
/// is sorted, left out or merged.
pub fn feed_episodes(feed: &Feed) -> (r: PodcastFeedResult)
    ensures
        r.deep_view() == episodes_of(feed.deep_view()),
{
    let fallback = feed_artwork(feed);
    let mut episodes: Vec<Episode> = Vec::new();
    let mut i: usize = 0;
    while i < feed.items.len()
        invariant
            i <= feed.items@.len(),
            episodes@.len() == i,
            fallback.deep_view() == channel_artwork(feed.deep_view()),
            forall|k: int|
                0 <= k < i ==> (#[trigger] episodes@[k]).deep_view() == episode_of(
                    feed.items@[k].deep_view(),
                    channel_artwork(feed.deep_view()),
                ),
        decreases feed.items@.len() - i,
    {
        episodes.push(episode_from_item(&feed.items[i], &fallback));
        i += 1;
    }
    PodcastFeedResult { episodes }
}

/// What ingestion makes of a document: the episodes of the feed that the parser
/// finds in it, or a parse failure where the parser finds none.
pub open spec fn ingested(document: Option<FeedView>) -> Result<Seq<EpisodeView>, ErrorKind> {
    match document {
        Some(feed) => Ok(episodes_of(feed)),
        None => Err(ErrorKind::ParseFailure),
    }
}

/// Ingests a document that has been read: a feed gives its episodes, all of them;
/// a document that is no feed gives `FeedParseFailed` and no episode.
pub fn ingest_document(document: &Option<Feed>) -> (r: Result<PodcastFeedResult, IngestError>)
    ensures
        match r {
            Ok(result) => ingested(document.deep_view()) == Ok::<Seq<EpisodeView>, ErrorKind>(
                result.deep_view(),
            ),
            Err(e) => e == IngestError::FeedParseFailed && document is None,
        },
{
    match document {
        Some(feed) => Ok(feed_episodes(feed)),
        None => Err(IngestError::FeedParseFailed),
    }
}

/// Ingests the body of a feed: parses it and gives the canonical episodes, or fails
/// with `FeedParseFailed` where the body is no feed document.
pub fn ingest_feed(body: &str) -> (r: Result<PodcastFeedResult, IngestError>)
    ensures
        match r {
            Ok(result) => ingested(parsed_feed(body@)) == Ok::<Seq<EpisodeView>, ErrorKind>(
                result.deep_view(),
            ),
            Err(e) => e == IngestError::FeedParseFailed && parsed_feed(body@) is None,
        },
{
    let document = read_feed(body);
    ingest_document(&document)
}

/// An episode without artwork of its own takes the channel's artwork: the URL of the
/// channel's image element where there is one. It has no artwork only where the item
/// and the channel both have none.
pub proof fn lemma_artwork_fallback(feed: FeedView, i: int)
    requires
        0 <= i < feed.items.len(),
    ensures
        item_artwork(feed.items[i]) is Some ==> episodes_of(feed)[i].artwork == item_artwork(
            feed.items[i],
        ),
        item_artwork(feed.items[i]) is None ==> episodes_of(feed)[i].artwork == channel_artwork(
            feed,
        ),
        item_artwork(feed.items[i]) is None && feed.head.image_url is Some ==> episodes_of(
            feed,
        )[i].artwork == feed.head.image_url,
        episodes_of(feed)[i].artwork is None <==> item_artwork(feed.items[i]) is None
            && channel_artwork(feed) is None,
{
}

/// The words with which a feed marks itself explicit.
pub open spec fn is_explicit_word(word: Seq<char>) -> bool {
    word == "yes"@ || word == "true"@
}

/// What a feed says of the podcast itself. The author and the explicit mark come
/// from the podcast extension; a channel without them has no author and is not
/// explicit. The episode count is the number of items, cut to 32 bits.
pub open spec fn podcast_info_of(feed: FeedView) -> PodcastInfoView {
    PodcastInfoView {
        title: feed.head.title,
        description: feed.head.description,
        artwork_url: channel_artwork(feed),
        author: match feed.extension {
            Some(extension) => or_empty(extension.author),
            None => Seq::empty(),
        },
        website: feed.head.link,
        categories: feed.categories,
        explicit: match feed.extension {
            Some(extension) => match extension.explicit {
                Some(word) => is_explicit_word(word),
                None => false,
            },
            None => false,
        },
        episode_count: feed.items.len() as i32,
    }
}

/// What the feed says of the podcast itself.
pub fn podcast_info(feed: &Feed) -> (r: PodcastInfo)
    ensures
        r.deep_view() == podcast_info_of(feed.deep_view()),
{
    let (author, explicit) = match &feed.extension {
        Some(extension) => {
            let explicit = match &extension.explicit {
                Some(word) => reads_as(word, "yes") || reads_as(word, "true"),
                None => false,
            };
            (copy_or_empty(&extension.author), explicit)
        },
        None => (String::new(), false),
    };
    PodcastInfo {
        title: feed.head.title.clone(),
        description: feed.head.description.clone(),
        artwork_url: feed_artwork(feed),
        author,
        website: feed.head.link.clone(),
        categories: copy_list(&feed.categories),
        explicit,
        episode_count: #[verifier::truncate]
        (feed.items.len() as i32),
    }
}

/// Reads the podcast's own description out of the body of its feed, or fails with
/// `FeedParseFailed` where the body is no feed document.
pub fn channel_info(body: &str) -> (r: Result<PodcastInfo, IngestError>)
    ensures
        match parsed_feed(body@) {
            Some(feed) => r matches Ok(info) && info.deep_view() == podcast_info_of(feed),
            None => r == Err::<PodcastInfo, IngestError>(IngestError::FeedParseFailed),
        },
{
    match read_feed(body) {
        Some(feed) => Ok(podcast_info(&feed)),
        None => Err(IngestError::FeedParseFailed),
    }
}

/// The request for a podcast's own feed: a plain `GET` of its URL.
pub fn channel_info_request(podcast_url: &str) -> (r: Request)
    ensures
        r.method == Method::Get,
        r.url@ == podcast_url@,
        r.headers@.len() == 0,
        r.body is None,
{
    Request { method: Method::Get, url: podcast_url.to_owned(), headers: Vec::new(), body: None }
}

/// The address at which the backend fetches a feed: the feed's URL goes into the
/// query as an encoded component.
pub open spec fn feed_endpoint(server: Seq<char>, feed_url: Seq<u8>) -> Seq<char> {
    server + "/api/data/fetch_podcast_feed?podcast_feed="@ + percent_encoded(feed_url)
}

/// The request that asks the backend for a feed. It carries the credential.
pub open spec fn feed_request_of(server: Seq<char>, key: Seq<char>, feed_url: Seq<u8>)
    -> crate::http::RequestView {
    crate::http::RequestView {
        method: Method::Get,
        url: feed_endpoint(server, feed_url),
        headers: seq![("Content-Type"@, "application/json"@), ("Api-Key"@, key)],
        body: None,
    }
}

/// Builds the request that asks the backend for a feed. The feed is never fetched
/// from its own address. Without a credential there is no request: the failure is
/// `ConfigMissing`, known before anything is sent.
pub fn feed_request(server_name: &str, api_key: &Option<String>, podcast_url: &str) -> (r: Result<
    Request,
    IngestError,
>)
    ensures
        match *api_key {
            Some(key) => r matches Ok(request) && request.deep_view() == feed_request_of(
                server_name@,
                key@,
                podcast_url.spec_bytes(),
            ),
            None => r == Err::<Request, IngestError>(IngestError::ConfigMissing),
        },
{
    match api_key {
        None => Err(IngestError::ConfigMissing),
        Some(key) => {
            let mut url = server_name.to_owned();
            url.append("/api/data/fetch_podcast_feed?podcast_feed=");
            let encoded = url_encode(podcast_url);
            url.append(encoded.as_str());
            let mut headers: Vec<(String, String)> = Vec::new();
            headers.push(("Content-Type".to_owned(), "application/json".to_owned()));
            headers.push(("Api-Key".to_owned(), key.clone()));
            let request = Request { method: Method::Get, url, headers, body: None };
            assert(request.headers.deep_view() =~= seq![
                ("Content-Type"@, "application/json"@),
                ("Api-Key"@, key@),
            ]);
            Ok(request)
        },
    }
}

/// The description of a failed fetch: a fixed text and the status in decimal.
pub open spec fn fetch_failure_text(status: u16) -> Seq<char> {
    "Failed to fetch podcast feed: HTTP "@ + decimal(status as nat)
}

/// What the backend's reply means. A status outside 200 to 299 is `FetchFailed` with
/// the status in its description, and the body is not looked at. Otherwise the body is
/// ingested: all its episodes or `FeedParseFailed`, never a part of them.
pub fn feed_reply(reply: &Reply) -> (r: Result<PodcastFeedResult, IngestError>)
    ensures
        match r {
            Ok(result) => is_success(reply.status) && ingested(parsed_feed(reply.body@)) == Ok::<
                Seq<EpisodeView>,
                ErrorKind,
            >(result.deep_view()),
            Err(IngestError::FeedParseFailed) => is_success(reply.status) && parsed_feed(
                reply.body@,
            ) is None,
            Err(IngestError::FetchFailed(text)) => !is_success(reply.status) && text@
                == fetch_failure_text(reply.status),
            Err(IngestError::ConfigMissing) => false,
        },
{
    if reply.ok() {
        ingest_feed(reply.body.as_str())
    } else {
        let mut text = "Failed to fetch podcast feed: HTTP ".to_owned();
        let status = decimal_text(reply.status as usize);
        text.append(status.as_str());
        Err(IngestError::FetchFailed(text))
    }
}

} // verus!
