use podcast_search::categories::Categories;
use podcast_search::directory::{
    connection_request, connection_status, explicit_flag, podcast_info_request,
    podcast_info_status, unify, unify_results, ITunesPodcast, Podcast, PodcastSearchResult,
    ProviderResult, UnifiedPodcast,
};
use podcast_search::error::{ErrorKind, SearchError};
use podcast_search::http::{Method, Reply};
use podcast_search::release_date::{release_time, update_time};

fn directory_entry(categories: Option<Categories>) -> Podcast {
    Podcast {
        id: 920666,
        title: "Startup Stories".to_string(),
        url: "https://feeds.example.org/startup.xml".to_string(),
        originalUrl: "http://old.example.org/startup.xml".to_string(),
        link: "https://example.org/startup".to_string(),
        description: "Founders talk.".to_string(),
        author: "Ada".to_string(),
        ownerName: "Ada Media".to_string(),
        image: "https://example.org/image.png".to_string(),
        artwork: "https://example.org/artwork.png".to_string(),
        lastUpdateTime: 1700000000,
        categories,
        explicit: true,
        episodeCount: 42,
    }
}

fn flat_entry(release: &str, genres: Vec<&str>, explicitness: &str, count: Option<i32>) -> ITunesPodcast {
    ITunesPodcast {
        wrapperType: "track".to_string(),
        kind: "podcast".to_string(),
        collectionId: 11,
        trackId: 22,
        artistName: "Grace".to_string(),
        trackName: "Compilers Weekly".to_string(),
        collectionViewUrl: "https://podcasts.example.com/id22".to_string(),
        feedUrl: "https://feeds.example.com/compilers".to_string(),
        artworkUrl100: "https://img.example.com/100.jpg".to_string(),
        releaseDate: release.to_string(),
        genres: genres.into_iter().map(|g| g.to_string()).collect(),
        collectionExplicitness: explicitness.to_string(),
        trackCount: count,
    }
}

#[test]
fn directory_entry_is_copied_field_for_field() {
    let mut table = Categories::new();
    table.insert("55".to_string(), "News".to_string());
    table.insert("9".to_string(), "Business".to_string());
    let unified = UnifiedPodcast::from(directory_entry(Some(table.clone())));
    assert_eq!(unified.id, 920666);
    assert_eq!(unified.title, "Startup Stories");
    assert_eq!(unified.url, "https://feeds.example.org/startup.xml");
    assert_eq!(unified.originalUrl, "http://old.example.org/startup.xml");
    assert_eq!(unified.link, "https://example.org/startup");
    assert_eq!(unified.description, "Founders talk.");
    assert_eq!(unified.author, "Ada");
    assert_eq!(unified.ownerName, "Ada Media");
    assert_eq!(unified.image, "https://example.org/image.png");
    assert_eq!(unified.artwork, "https://example.org/artwork.png");
    assert_eq!(unified.lastUpdateTime, 1700000000);
    assert_eq!(unified.categories, Some(table));
    assert!(unified.explicit);
    assert_eq!(unified.episodeCount, 42);
}

#[test]
fn directory_entry_without_categories_gets_the_empty_table() {
    let unified: UnifiedPodcast = directory_entry(None).into();
    let table = unified.categories.expect("a table is always there");
    assert!(table.is_empty());
    assert_eq!(table.len(), 0);
}

#[test]
fn flat_entry_is_normalised() {
    let entry = flat_entry("2015-05-15T00:00:00Z", vec!["Technology", "News"], "explicit", Some(7));
    let unified = UnifiedPodcast::from(entry);
    assert_eq!(unified.id, 22);
    assert_eq!(unified.title, "Compilers Weekly");
    assert_eq!(unified.url, "https://feeds.example.com/compilers");
    assert_eq!(unified.originalUrl, "https://feeds.example.com/compilers");
    assert_eq!(unified.link, "https://podcasts.example.com/id22");
    assert_eq!(unified.description, "Descriptions not provided by iTunes");
    assert_eq!(unified.author, "Grace");
    assert_eq!(unified.ownerName, "Grace");
    assert_eq!(unified.image, "https://img.example.com/100.jpg");
    assert_eq!(unified.artwork, "https://img.example.com/100.jpg");
    assert_eq!(unified.lastUpdateTime, 1431648000);
    assert!(unified.explicit);
    assert_eq!(unified.episodeCount, 7);
}

#[test]
fn flat_entry_with_unparsable_date_has_update_time_zero() {
    for release in ["", "yesterday", "2015-05-15", "2015-13-40T00:00:00Z", "15/05/2015 10:00"] {
        let unified = UnifiedPodcast::from(flat_entry(release, vec![], "explicit", None));
        assert_eq!(unified.lastUpdateTime, 0, "release date {:?}", release);
    }
}

#[test]
fn flat_entry_genres_are_keyed_by_position() {
    let genres = vec![
        "Comedy", "News", "Arts", "Business", "Science", "Health", "Music", "Sports", "History",
        "Fiction", "Leisure", "Education",
    ];
    let unified = UnifiedPodcast::from(flat_entry("", genres.clone(), "notExplicit", None));
    let table = unified.categories.expect("a table is always there");
    assert_eq!(table.len(), genres.len());
    for (i, genre) in genres.iter().enumerate() {
        assert_eq!(table.key_at(i), &i.to_string());
        assert_eq!(table.name_at(i), genre);
        assert_eq!(table.get(&i.to_string()), Some(&genre.to_string()));
    }
    assert_eq!(table.get("12"), None);
    assert_eq!(table.get("00"), None);
}

#[test]
fn flat_entry_without_genres_has_the_empty_table() {
    let unified = UnifiedPodcast::from(flat_entry("", vec![], "", None));
    assert_eq!(unified.categories, Some(Categories::new()));
}

#[test]
fn explicitness_is_a_three_way_word() {
    assert!(explicit_flag(&"explicit".to_string()));
    assert!(!explicit_flag(&"notExplicit".to_string()));
    assert!(!explicit_flag(&"cleaned".to_string()));
    assert!(!explicit_flag(&"".to_string()));
    assert!(!explicit_flag(&"Explicit".to_string()));
    assert!(!UnifiedPodcast::from(flat_entry("", vec![], "notExplicit", None)).explicit);
    assert!(!UnifiedPodcast::from(flat_entry("", vec![], "cleaned", None)).explicit);
}

#[test]
fn missing_track_count_is_zero() {
    assert_eq!(UnifiedPodcast::from(flat_entry("", vec![], "", None)).episodeCount, 0);
    assert_eq!(UnifiedPodcast::from(flat_entry("", vec![], "", Some(-3))).episodeCount, -3);
}

#[test]
fn release_time_reads_rfc_3339() {
    assert_eq!(release_time("1970-01-01T00:00:00Z"), 0);
    assert_eq!(release_time("1970-01-01T00:00:01Z"), 1);
    assert_eq!(release_time("2015-05-15T00:00:00Z"), 1431648000);
    assert_eq!(release_time("1996-12-19T16:39:57-08:00"), 851042397);
    assert_eq!(release_time("1969-12-31T23:59:59+00:00"), -1);
    assert_eq!(release_time("not a date"), 0);
}

#[test]
fn update_time_defaults_to_the_epoch() {
    assert_eq!(update_time(Some(1431648000)), 1431648000);
    assert_eq!(update_time(Some(-5)), -5);
    assert_eq!(update_time(None), 0);
}

#[test]
fn search_reply_of_either_provider_is_unified() {
    let reply = PodcastSearchResult {
        status: Some("true".to_string()),
        resultCount: None,
        feeds: Some(vec![directory_entry(None), directory_entry(None)]),
        results: None,
    };
    let unified = unify_results(reply);
    assert_eq!(unified.len(), 2);
    assert_eq!(unified[0].id, 920666);

    let reply = PodcastSearchResult {
        status: None,
        resultCount: Some(1),
        feeds: None,
        results: Some(vec![flat_entry("2015-05-15T00:00:00Z", vec!["Arts"], "explicit", None)]),
    };
    let unified = unify_results(reply);
    assert_eq!(unified.len(), 1);
    assert_eq!(unified[0].id, 22);
    assert_eq!(unified[0].lastUpdateTime, 1431648000);
}

#[test]
fn search_reply_with_both_lists_keeps_directory_entries_first() {
    let reply = PodcastSearchResult {
        status: None,
        resultCount: None,
        feeds: Some(vec![directory_entry(None)]),
        results: Some(vec![flat_entry("", vec![], "", None)]),
    };
    let unified = unify_results(reply);
    assert_eq!(unified.iter().map(|u| u.id).collect::<Vec<_>>(), vec![920666, 22]);
}

#[test]
fn search_reply_without_lists_is_empty() {
    let reply = PodcastSearchResult { status: None, resultCount: None, feeds: None, results: None };
    assert!(unify_results(reply).is_empty());
}

#[test]
fn directory_search_request_is_a_plain_get() {
    let request = podcast_info_request(
        &"startup".to_string(),
        &Some("https://search.example.net/api/search".to_string()),
        "itunes",
    )
    .expect("an endpoint is configured");
    assert_eq!(request.method, Method::Get);
    assert_eq!(request.url, "https://search.example.net/api/search?query=startup&index=itunes");
    assert!(request.headers.is_empty());
    assert_eq!(request.body, None);
}

#[test]
fn directory_search_without_endpoint_is_config_missing() {
    let error = podcast_info_request(&"startup".to_string(), &None, "itunes").unwrap_err();
    assert_eq!(error, SearchError::ConfigMissing("API URL is not provided".to_string()));
    assert_eq!(error.kind(), ErrorKind::ConfigMissing);
    assert_eq!(error.message(), "API URL is not provided");
}

#[test]
fn probe_request_goes_to_the_endpoint_itself() {
    let request = connection_request(&Some("https://search.example.net/api/search".to_string()))
        .expect("an endpoint is configured");
    assert_eq!(request.method, Method::Get);
    assert_eq!(request.url, "https://search.example.net/api/search");
    let error = connection_request(&None).unwrap_err();
    assert_eq!(error, SearchError::ConfigMissing("API URL is missing".to_string()));
}

fn reply(status: u16, status_text: &str) -> Reply {
    Reply { status, status_text: status_text.to_string(), body: String::new() }
}

#[test]
fn any_2xx_is_a_successful_probe() {
    for status in [200u16, 201, 204, 299] {
        assert_eq!(connection_status(&reply(status, "fine")), Ok(()));
        assert!(reply(status, "fine").ok());
    }
    for status in [0u16, 199, 300, 301, 404, 500, 503] {
        assert!(!reply(status, "bad").ok());
        assert!(connection_status(&reply(status, "bad")).is_err());
    }
}

#[test]
fn failed_probe_carries_the_status_text() {
    let error = connection_status(&reply(503, "Service Unavailable")).unwrap_err();
    assert_eq!(
        error,
        SearchError::TransportFailure("HTTP error occurred: Service Unavailable".to_string())
    );
    assert_eq!(error.kind(), ErrorKind::TransportFailure);
}

#[test]
fn failed_directory_search_carries_the_status_text() {
    assert_eq!(podcast_info_status(&reply(200, "OK")), Ok(()));
    let error = podcast_info_status(&reply(404, "Not Found")).unwrap_err();
    assert_eq!(
        error,
        SearchError::TransportFailure("Failed to fetch podcast info: Not Found".to_string())
    );
}

#[test]
fn unify_takes_an_entry_of_either_provider() {
    let from_directory = unify(ProviderResult::PodcastIndex(directory_entry(None)));
    assert_eq!(from_directory, UnifiedPodcast::from(directory_entry(None)));
    assert_eq!(from_directory.id, 920666);
    assert!(from_directory.categories.is_some());
    let entry = flat_entry("2015-05-15T00:00:00+02:00", vec!["Arts"], "explicit", Some(1));
    let from_flat = unify(ProviderResult::ITunes(entry.clone()));
    assert_eq!(from_flat, UnifiedPodcast::from(entry));
    assert_eq!(from_flat.lastUpdateTime, 1431648000 - 7200);
    assert_eq!(from_flat.categories.unwrap().get("0"), Some(&"Arts".to_string()));
}

#[test]
fn search_term_goes_into_the_address_as_it_is() {
    let request = podcast_info_request(
        &"rust & verification".to_string(),
        &Some("https://search.example.net/api/search".to_string()),
        "podcast_index",
    )
    .expect("an endpoint is configured");
    assert_eq!(
        request.url,
        "https://search.example.net/api/search?query=rust & verification&index=podcast_index"
    );
}
