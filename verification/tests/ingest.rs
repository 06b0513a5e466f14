use podcast_search::error::{ErrorKind, IngestError};
use podcast_search::feed::{
    ChannelExtension, Feed, FeedEnclosure, FeedHead, FeedItem, ItemExtension, ItemMedia, ItemText,
};
use podcast_search::feed_source::read_feed;
use podcast_search::http::{Method, Reply};
use podcast_search::ingest::{
    channel_info, channel_info_request, episode_from_item, feed_artwork, feed_episodes,
    feed_reply, feed_request, ingest_document, ingest_feed, podcast_info, Episode,
};

const FEED: &str = r#"<?xml version="1.0" encoding="UTF-8"?>
<rss version="2.0" xmlns:itunes="http://www.itunes.com/dtds/podcast-1.0.dtd" xmlns:content="http://purl.org/rss/1.0/modules/content/">
  <channel>
    <title>Startup Stories</title>
    <link>https://example.org/startup</link>
    <description>Founders talk.</description>
    <category>Business</category>
    <category>Technology</category>
    <image>
      <url>https://example.org/channel.png</url>
      <title>Startup Stories</title>
      <link>https://example.org/startup</link>
    </image>
    <itunes:author>Ada</itunes:author>
    <itunes:explicit>yes</itunes:explicit>
    <itunes:image href="https://example.org/itunes-channel.png"/>
    <item>
      <title>One</title>
      <link>https://example.org/startup/1</link>
      <description>Plain one.</description>
      <content:encoded><![CDATA[<p>Rich one.</p>]]></content:encoded>
      <author>ada@example.org</author>
      <guid>urn:ep:1</guid>
      <pubDate>Tue, 02 Jan 2024 08:00:00 GMT</pubDate>
      <enclosure url="https://cdn.example.org/1.mp3" length="12345" type="audio/mpeg"/>
      <itunes:image href="https://example.org/one.png"/>
      <itunes:duration>00:31:07</itunes:duration>
    </item>
    <item>
      <title>Two</title>
      <description>Plain two.</description>
    </item>
    <item>
      <description>No title, no guid.</description>
      <itunes:duration>12:00</itunes:duration>
    </item>
  </channel>
</rss>
"#;

const FEED_WITH_EXTENSION_IMAGE_ONLY: &str = r#"<rss version="2.0" xmlns:itunes="http://www.itunes.com/dtds/podcast-1.0.dtd">
  <channel>
    <title>T</title><link>L</link><description>D</description>
    <itunes:image href="https://example.org/itunes-channel.png"/>
    <itunes:explicit>no</itunes:explicit>
    <item><title>Only</title></item>
  </channel>
</rss>"#;

const FEED_WITHOUT_IMAGES: &str = r#"<rss version="2.0">
  <channel>
    <title>T</title><link>L</link><description>D</description>
    <item><title>Only</title></item>
  </channel>
</rss>"#;

fn some(text: &str) -> Option<String> {
    Some(text.to_string())
}

#[test]
fn feed_is_read_into_plain_values() {
    let feed = read_feed(FEED).expect("a feed document");
    assert_eq!(
        feed.head,
        FeedHead {
            title: "Startup Stories".to_string(),
            link: "https://example.org/startup".to_string(),
            description: "Founders talk.".to_string(),
            image_url: some("https://example.org/channel.png"),
        }
    );
    assert_eq!(
        feed.extension,
        Some(ChannelExtension {
            image: some("https://example.org/itunes-channel.png"),
            author: some("Ada"),
            explicit: some("yes"),
        })
    );
    assert_eq!(feed.categories, vec!["Business".to_string(), "Technology".to_string()]);
    assert_eq!(feed.items.len(), 3);
    assert_eq!(
        feed.items[0],
        FeedItem {
            text: ItemText {
                title: some("One"),
                link: some("https://example.org/startup/1"),
                description: some("Plain one."),
                author: some("ada@example.org"),
                pub_date: some("Tue, 02 Jan 2024 08:00:00 GMT"),
                content: some("<p>Rich one.</p>"),
            },
            media: ItemMedia {
                guid: some("urn:ep:1"),
                enclosure: Some(FeedEnclosure {
                    url: "https://cdn.example.org/1.mp3".to_string(),
                    length: "12345".to_string(),
                }),
            },
            extension: Some(ItemExtension {
                image: some("https://example.org/one.png"),
                duration: some("00:31:07"),
            }),
        }
    );
    assert_eq!(feed.items[1].text.title, some("Two"));
    assert_eq!(feed.items[1].media, ItemMedia { guid: None, enclosure: None });
    assert_eq!(feed.items[1].extension, None);
    assert_eq!(feed.items[2].text.title, None);
    assert_eq!(
        feed.items[2].extension,
        Some(ItemExtension { image: None, duration: some("12:00") })
    );
}

#[test]
fn episodes_follow_the_fallback_policy() {
    let result = ingest_feed(FEED).expect("a feed document");
    assert_eq!(result.episodes.len(), 3);
    assert_eq!(
        result.episodes[0],
        Episode {
            title: some("One"),
            description: some("<p>Rich one.</p>"),
            pub_date: some("Tue, 02 Jan 2024 08:00:00 GMT"),
            links: vec!["https://example.org/startup/1".to_string()],
            enclosure_url: some("https://cdn.example.org/1.mp3"),
            enclosure_length: some("12345"),
            artwork: some("https://example.org/one.png"),
            content: some("<p>Rich one.</p>"),
            authors: vec!["ada@example.org".to_string()],
            guid: "urn:ep:1".to_string(),
            duration: some("00:31:07"),
        }
    );
    assert_eq!(
        result.episodes[1],
        Episode {
            title: some("Two"),
            description: some("Plain two."),
            pub_date: None,
            links: vec![],
            enclosure_url: None,
            enclosure_length: None,
            artwork: some("https://example.org/channel.png"),
            content: None,
            authors: vec![],
            guid: "Two".to_string(),
            duration: None,
        }
    );
    assert_eq!(
        result.episodes[2],
        Episode {
            title: some(""),
            description: some("No title, no guid."),
            pub_date: None,
            links: vec![],
            enclosure_url: None,
            enclosure_length: None,
            artwork: some("https://example.org/channel.png"),
            content: None,
            authors: vec![],
            guid: String::new(),
            duration: some("12:00"),
        }
    );
}

#[test]
fn episodes_keep_document_order() {
    let result = ingest_feed(FEED).expect("a feed document");
    let titles: Vec<Option<String>> = result.episodes.iter().map(|e| e.title.clone()).collect();
    assert_eq!(titles, vec![some("One"), some("Two"), some("")]);
}

#[test]
fn item_without_artwork_takes_the_channel_image() {
    let result = ingest_feed(FEED).expect("a feed document");
    assert_eq!(result.episodes[1].artwork, some("https://example.org/channel.png"));
}

#[test]
fn channel_extension_image_is_the_second_fallback() {
    let feed = read_feed(FEED_WITH_EXTENSION_IMAGE_ONLY).expect("a feed document");
    assert_eq!(feed.head.image_url, None);
    assert_eq!(feed_artwork(&feed), some("https://example.org/itunes-channel.png"));
    let result = feed_episodes(&feed);
    assert_eq!(result.episodes[0].artwork, some("https://example.org/itunes-channel.png"));
}

#[test]
fn no_artwork_anywhere_is_absent_not_empty() {
    let result = ingest_feed(FEED_WITHOUT_IMAGES).expect("a feed document");
    assert_eq!(result.episodes.len(), 1);
    assert_eq!(result.episodes[0].artwork, None);
}

fn bare_item() -> FeedItem {
    FeedItem {
        text: ItemText {
            title: None,
            link: None,
            description: None,
            author: None,
            pub_date: None,
            content: None,
        },
        media: ItemMedia { guid: None, enclosure: None },
        extension: None,
    }
}

#[test]
fn bare_item_degrades_to_neutral_values() {
    let episode = episode_from_item(&bare_item(), &None);
    assert_eq!(
        episode,
        Episode {
            title: some(""),
            description: some(""),
            pub_date: None,
            links: vec![],
            enclosure_url: None,
            enclosure_length: None,
            artwork: None,
            content: None,
            authors: vec![],
            guid: String::new(),
            duration: None,
        }
    );
}

#[test]
fn item_extension_without_image_takes_the_fallback() {
    let mut item = bare_item();
    item.extension = Some(ItemExtension { image: None, duration: some("5") });
    let episode = episode_from_item(&item, &some("https://example.org/fallback.png"));
    assert_eq!(episode.artwork, some("https://example.org/fallback.png"));
    assert_eq!(episode.duration, some("5"));
    item.extension = Some(ItemExtension { image: some("own.png"), duration: None });
    let episode = episode_from_item(&item, &some("https://example.org/fallback.png"));
    assert_eq!(episode.artwork, some("own.png"));
}

#[test]
fn guid_prefers_the_item_identifier_over_the_title() {
    let mut item = bare_item();
    item.text.title = some("A title");
    assert_eq!(episode_from_item(&item, &None).guid, "A title");
    item.media.guid = some("urn:x");
    assert_eq!(episode_from_item(&item, &None).guid, "urn:x");
}

#[test]
fn description_prefers_content() {
    let mut item = bare_item();
    item.text.description = some("plain");
    assert_eq!(episode_from_item(&item, &None).description, some("plain"));
    item.text.content = some("<b>rich</b>");
    assert_eq!(episode_from_item(&item, &None).description, some("<b>rich</b>"));
    assert_eq!(episode_from_item(&item, &None).content, some("<b>rich</b>"));
}

#[test]
fn malformed_body_is_a_parse_failure() {
    for body in ["", "this is not xml", "{\"json\": true}", "<html><body>nope</body></html>", "<rss>"] {
        let error = ingest_feed(body).unwrap_err();
        assert_eq!(error, IngestError::FeedParseFailed, "body {:?}", body);
        assert_eq!(error.kind(), ErrorKind::ParseFailure);
        assert_eq!(read_feed(body), None);
    }
}

#[test]
fn document_that_is_no_feed_gives_no_episodes() {
    assert_eq!(ingest_document(&None), Err(IngestError::FeedParseFailed));
    let feed = read_feed(FEED_WITHOUT_IMAGES).expect("a feed document");
    assert_eq!(ingest_document(&Some(feed.clone())), Ok(feed_episodes(&feed)));
}

#[test]
fn feed_request_goes_through_the_backend_with_the_credential() {
    let request = feed_request(
        "https://pods.example.org",
        &some("s3cret"),
        "https://feeds.example.com/show?id=7&lang=dé",
    )
    .expect("a credential is configured");
    assert_eq!(request.method, Method::Get);
    assert_eq!(
        request.url,
        "https://pods.example.org/api/data/fetch_podcast_feed?podcast_feed=https%3A%2F%2Ffeeds.example.com%2Fshow%3Fid%3D7%26lang%3Dd%C3%A9"
    );
    assert_eq!(
        request.headers,
        vec![
            ("Content-Type".to_string(), "application/json".to_string()),
            ("Api-Key".to_string(), "s3cret".to_string()),
        ]
    );
    assert_eq!(request.body, None);
}

#[test]
fn unreserved_characters_stay_in_the_feed_address() {
    let request = feed_request("", &some("k"), "AZaz09-._~ /%").expect("a credential");
    assert_eq!(request.url, "/api/data/fetch_podcast_feed?podcast_feed=AZaz09-._~%20%2F%25");
}

#[test]
fn feed_request_without_credential_is_config_missing() {
    let error = feed_request("https://pods.example.org", &None, "https://f.example/x").unwrap_err();
    assert_eq!(error, IngestError::ConfigMissing);
    assert_eq!(error.kind(), ErrorKind::ConfigMissing);
    assert_eq!(error.message(), "API key is missing");
}

#[test]
fn failed_fetch_carries_the_status() {
    let reply = Reply { status: 503, status_text: "Service Unavailable".to_string(), body: FEED.to_string() };
    let error = feed_reply(&reply).unwrap_err();
    assert_eq!(error, IngestError::FetchFailed("Failed to fetch podcast feed: HTTP 503".to_string()));
    assert_eq!(error.kind(), ErrorKind::TransportFailure);
    assert_eq!(error.message(), "Failed to fetch podcast feed: HTTP 503");
}

#[test]
fn successful_fetch_is_ingested() {
    let reply = Reply { status: 200, status_text: "OK".to_string(), body: FEED.to_string() };
    assert_eq!(feed_reply(&reply), ingest_feed(FEED));
    let reply = Reply { status: 200, status_text: "OK".to_string(), body: "garbage".to_string() };
    assert_eq!(feed_reply(&reply), Err(IngestError::FeedParseFailed));
}

#[test]
fn podcast_info_comes_from_the_channel() {
    let info = channel_info(FEED).expect("a feed document");
    assert_eq!(info.title, "Startup Stories");
    assert_eq!(info.description, "Founders talk.");
    assert_eq!(info.artwork_url, some("https://example.org/channel.png"));
    assert_eq!(info.author, "Ada");
    assert_eq!(info.website, "https://example.org/startup");
    assert_eq!(info.categories, vec!["Business".to_string(), "Technology".to_string()]);
    assert!(info.explicit);
    assert_eq!(info.episode_count, 3);
}

#[test]
fn podcast_info_without_extension_has_neutral_values() {
    let info = channel_info(FEED_WITHOUT_IMAGES).expect("a feed document");
    assert_eq!(info.artwork_url, None);
    assert_eq!(info.author, "");
    assert!(!info.explicit);
    assert!(info.categories.is_empty());
    assert_eq!(info.episode_count, 1);
    assert_eq!(channel_info("nope"), Err(IngestError::FeedParseFailed));
}

#[test]
fn explicit_mark_is_yes_or_true() {
    let mut feed = Feed {
        head: FeedHead {
            title: String::new(),
            link: String::new(),
            description: String::new(),
            image_url: None,
        },
        extension: None,
        categories: vec![],
        items: vec![],
    };
    assert!(!podcast_info(&feed).explicit);
    for (word, expected) in [("yes", true), ("true", true), ("no", false), ("Yes", false), ("clean", false), ("", false)] {
        feed.extension = Some(ChannelExtension { image: None, author: None, explicit: some(word) });
        assert_eq!(podcast_info(&feed).explicit, expected, "word {:?}", word);
    }
    feed.extension = Some(ChannelExtension { image: None, author: None, explicit: None });
    assert!(!podcast_info(&feed).explicit);
    assert_eq!(podcast_info(&feed).episode_count, 0);
}

#[test]
fn channel_info_request_is_a_plain_get() {
    let request = channel_info_request("https://feeds.example.com/show");
    assert_eq!(request.method, Method::Get);
    assert_eq!(request.url, "https://feeds.example.com/show");
    assert!(request.headers.is_empty());
    assert_eq!(request.body, None);
}

#[test]
fn channel_without_items_gives_no_episodes() {
    let body = "<rss version=\"2.0\"><channel><title>T</title></channel></rss>";
    let feed = read_feed(body).expect("a feed document");
    assert_eq!(feed.head.title, "T");
    assert_eq!(feed.head.link, "");
    assert_eq!(feed.head.description, "");
    assert!(feed.items.is_empty());
    assert_eq!(ingest_feed(body).expect("a feed document").episodes, vec![]);
    assert_eq!(channel_info(body).expect("a feed document").episode_count, 0);
}

#[test]
fn document_without_channel_is_a_parse_failure() {
    assert_eq!(ingest_feed("<rss version=\"2.0\"></rss>"), Err(IngestError::FeedParseFailed));
    assert_eq!(
        ingest_feed("<feed xmlns=\"http://www.w3.org/2005/Atom\"><title>T</title></feed>"),
        Err(IngestError::FeedParseFailed)
    );
}

#[test]
fn many_items_keep_their_order() {
    let mut body = String::from("<rss version=\"2.0\"><channel><title>T</title>");
    for i in 0..50 {
        body.push_str(&format!("<item><title>Episode {}</title><guid>g{}</guid></item>", i, 49 - i));
    }
    body.push_str("</channel></rss>");
    let result = ingest_feed(&body).expect("a feed document");
    assert_eq!(result.episodes.len(), 50);
    for (i, episode) in result.episodes.iter().enumerate() {
        assert_eq!(episode.title, Some(format!("Episode {}", i)));
        assert_eq!(episode.guid, format!("g{}", 49 - i));
    }
}

#[test]
fn equal_items_are_not_merged() {
    let body = "<rss version=\"2.0\"><channel><title>T</title>\
        <item><title>Same</title></item><item><title>Same</title></item></channel></rss>";
    let result = ingest_feed(body).expect("a feed document");
    assert_eq!(result.episodes.len(), 2);
    assert_eq!(result.episodes[0], result.episodes[1]);
    assert_eq!(result.episodes[0].guid, "Same");
}
