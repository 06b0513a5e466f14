use podcast_search::capability::{ContextButtonProps, EpisodeHandle};
use podcast_search::database::{SearchEpisode, SearchRequest};
use podcast_search::orchestrator::{publish_episodes, SearchStore};
use podcast_search::presentation::{
    apply_message, context_button, empty_message, episode_item, error_message, holds_id,
    is_expanded, menu_label, search, search_request, toggle_message, AppStateMsg, EpisodeCall,
    ErrorMessageProps, MenuChoice, SearchView,
};
use podcast_search::records::{DownloadEpisodeRequest, QueuePodcastRequest, SavePodcastRequest};
use podcast_search::text::signed_text;

fn found(id: i32, date: &str) -> SearchEpisode {
    SearchEpisode {
        PodcastID: 3,
        PodcastName: "Show".to_string(),
        ArtworkURL: "https://img.example/show.png".to_string(),
        Author: "Ada".to_string(),
        Categories: "{}".to_string(),
        Description: "A show.".to_string(),
        EpisodeCount: 12,
        FeedURL: "https://feeds.example/show".to_string(),
        WebsiteURL: "https://show.example".to_string(),
        Explicit: 0,
        UserID: 2,
        EpisodeID: id,
        EpisodeTitle: "Pilot".to_string(),
        EpisodeDescription: "First.".to_string(),
        EpisodeURL: "https://cdn.example/pilot.mp3".to_string(),
        EpisodeArtwork: "https://img.example/pilot.png".to_string(),
        EpisodePubDate: date.to_string(),
        EpisodeDuration: 1800,
        ListenDuration: None,
    }
}

#[test]
fn signed_text_renders_identifiers() {
    assert_eq!(signed_text(0), "0");
    assert_eq!(signed_text(42), "42");
    assert_eq!(signed_text(-42), "-42");
    assert_eq!(signed_text(i32::MAX), "2147483647");
    assert_eq!(signed_text(i32::MIN), "-2147483648");
}

#[test]
fn error_banner_shows_only_an_error() {
    assert_eq!(error_message(&ErrorMessageProps { error_message: None }), None);
    assert_eq!(
        error_message(&ErrorMessageProps { error_message: Some("boom".to_string()) }),
        Some("boom".to_string())
    );
}

#[test]
fn placeholder_has_logo_header_and_paragraph() {
    let message = empty_message("Nothing here", "Add something.");
    assert_eq!(message.image, "static/assets/favicon.png");
    assert_eq!(message.image_alt, "Logo");
    assert_eq!(message.header, "Nothing here");
    assert_eq!(message.paragraph, "Add something.");
}

#[test]
fn card_is_made_through_the_handle() {
    let card = episode_item(
        EpisodeHandle::Search(found(7, "2024-01-02")),
        "First.".to_string(),
        false,
        "Released on: 2024-01-02",
    );
    assert_eq!(card.artwork, "https://img.example/pilot.png");
    assert_eq!(card.artwork_alt, "Cover for Pilot");
    assert_eq!(card.title, "Pilot");
    assert_eq!(card.description, "First.");
    assert_eq!(card.toggle_label, "See More");
    assert_eq!(card.release, "Released on: 2024-01-02");
    assert!(card.menu == ContextButtonProps { episode: EpisodeHandle::Search(found(7, "2024-01-02")) });
    let card = episode_item(EpisodeHandle::Search(found(7, "")), String::new(), true, "");
    assert_eq!(card.toggle_label, "See Less");
}

#[test]
fn menu_makes_one_call_for_each_entry() {
    let props = ContextButtonProps { episode: EpisodeHandle::Search(found(7, "")) };
    assert_eq!(menu_label(MenuChoice::Queue), "Queue Episode");
    assert_eq!(menu_label(MenuChoice::Save), "Save Episode");
    assert_eq!(menu_label(MenuChoice::Download), "Download Episode");
    assert_eq!(
        context_button(&props, MenuChoice::Queue, 2),
        EpisodeCall::Queue(QueuePodcastRequest {
            episode_title: "Pilot".to_string(),
            ep_url: "https://img.example/pilot.png".to_string(),
            user_id: 2,
        })
    );
    assert_eq!(
        context_button(&props, MenuChoice::Save, 2),
        EpisodeCall::Save(SavePodcastRequest {
            episode_title: "Pilot".to_string(),
            ep_url: "https://img.example/pilot.png".to_string(),
            user_id: 2,
        })
    );
    assert_eq!(
        context_button(&props, MenuChoice::Download, 2),
        EpisodeCall::Download(DownloadEpisodeRequest { episode_id: 7, user_id: 2 })
    );
}

#[test]
fn descriptions_unfold_and_fold() {
    let mut store = SearchStore::new();
    assert!(!is_expanded(&store, 7));
    assert_eq!(toggle_message(&store, 7), AppStateMsg::ExpandEpisode("7".to_string()));
    apply_message(&mut store, AppStateMsg::ExpandEpisode("7".to_string()));
    apply_message(&mut store, AppStateMsg::ExpandEpisode("-3".to_string()));
    apply_message(&mut store, AppStateMsg::ExpandEpisode("7".to_string()));
    assert_eq!(store.expanded_descriptions, vec!["7".to_string(), "-3".to_string()]);
    assert!(is_expanded(&store, 7));
    assert!(is_expanded(&store, -3));
    assert!(!is_expanded(&store, 3));
    assert!(holds_id(&store.expanded_descriptions, &"7".to_string()));
    assert_eq!(toggle_message(&store, 7), AppStateMsg::CollapseEpisode("7".to_string()));
    apply_message(&mut store, AppStateMsg::CollapseEpisode("7".to_string()));
    assert_eq!(store.expanded_descriptions, vec!["-3".to_string()]);
    apply_message(&mut store, AppStateMsg::CollapseEpisode("7".to_string()));
    assert_eq!(store.expanded_descriptions, vec!["-3".to_string()]);
    assert!(!is_expanded(&store, 7));
}

#[test]
fn folding_takes_out_every_occurrence() {
    let mut store = SearchStore::new();
    store.expanded_descriptions =
        vec!["1".to_string(), "2".to_string(), "1".to_string(), "3".to_string(), "1".to_string()];
    apply_message(&mut store, AppStateMsg::CollapseEpisode("1".to_string()));
    assert_eq!(store.expanded_descriptions, vec!["2".to_string(), "3".to_string()]);
}

#[test]
fn search_page_lists_the_episodes_found() {
    let mut store = SearchStore::new();
    apply_message(&mut store, AppStateMsg::ExpandEpisode("11".to_string()));
    publish_episodes(&mut store, Ok(vec![found(10, "2024-01-02"), found(11, "2024-02-03")]));
    match search(&store) {
        SearchView::Rows(rows) => {
            assert_eq!(rows.len(), 2);
            assert!(rows[0].episode == found(10, "2024-01-02"));
            assert!(!rows[0].is_expanded);
            assert_eq!(rows[0].release, "Released on: 2024-01-02");
            assert_eq!(rows[0].toggle, AppStateMsg::ExpandEpisode("10".to_string()));
            assert!(rows[1].episode == found(11, "2024-02-03"));
            assert!(rows[1].is_expanded);
            assert_eq!(rows[1].release, "Released on: 2024-02-03");
            assert_eq!(rows[1].toggle, AppStateMsg::CollapseEpisode("11".to_string()));
        },
        other => panic!("expected rows, got {:?}", other),
    }
}

#[test]
fn search_request_takes_the_term_and_the_user() {
    assert_eq!(
        search_request("startup".to_string(), 2),
        SearchRequest { search_term: "startup".to_string(), user_id: 2 }
    );
}
