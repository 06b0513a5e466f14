use podcast_search::capability::{
    ContextButtonProps, EpisodeHandle, EpisodeKind, EpisodeRef, EpisodeTrait,
};
use podcast_search::database::SearchEpisode;
use podcast_search::records::{
    DownloadEpisodeRequest, Episode, EpisodeDownload, HistoryEpisode, QueuePodcastRequest,
    QueuedEpisode, SavePodcastRequest, SavedEpisode,
};

fn fresh() -> Episode {
    Episode {
        PodcastName: "Show".to_string(),
        EpisodeTitle: "Pilot".to_string(),
        EpisodePubDate: "2024-01-02".to_string(),
        EpisodeDescription: "First.".to_string(),
        EpisodeArtwork: "https://img.example/pilot.png".to_string(),
        EpisodeURL: "https://cdn.example/pilot.mp3".to_string(),
        EpisodeDuration: 1800,
        ListenDuration: Some(60),
        EpisodeID: 7,
    }
}

fn queued() -> QueuedEpisode {
    QueuedEpisode {
        EpisodeTitle: "Pilot".to_string(),
        PodcastName: "Show".to_string(),
        EpisodePubDate: "2024-01-02".to_string(),
        EpisodeDescription: "First.".to_string(),
        EpisodeArtwork: "https://img.example/pilot.png".to_string(),
        EpisodeURL: "https://cdn.example/pilot.mp3".to_string(),
        QueuePosition: Some(1),
        EpisodeDuration: 1800,
        QueueDate: "2024-01-03".to_string(),
        ListenDuration: None,
        EpisodeID: 7,
    }
}

fn saved() -> SavedEpisode {
    SavedEpisode {
        EpisodeTitle: "Pilot".to_string(),
        PodcastName: "Show".to_string(),
        EpisodePubDate: "2024-01-02".to_string(),
        EpisodeDescription: "First.".to_string(),
        EpisodeArtwork: "https://img.example/pilot.png".to_string(),
        EpisodeURL: "https://cdn.example/pilot.mp3".to_string(),
        EpisodeDuration: 1800,
        ListenDuration: None,
        EpisodeID: 7,
        WebsiteURL: "https://show.example".to_string(),
    }
}

fn history() -> HistoryEpisode {
    HistoryEpisode {
        PodcastName: "Show".to_string(),
        EpisodeTitle: "Pilot".to_string(),
        EpisodePubDate: "2024-01-02".to_string(),
        EpisodeDescription: "First.".to_string(),
        EpisodeArtwork: "https://img.example/pilot.png".to_string(),
        EpisodeURL: "https://cdn.example/pilot.mp3".to_string(),
        EpisodeDuration: 1800,
        ListenDuration: Some(1800),
        EpisodeID: 7,
        ListenDate: Some("2024-01-04".to_string()),
    }
}

fn downloaded() -> EpisodeDownload {
    EpisodeDownload {
        PodcastID: 3,
        PodcastName: "Show".to_string(),
        ArtworkURL: "https://img.example/show.png".to_string(),
        EpisodeID: 7,
        EpisodeTitle: "Pilot".to_string(),
        EpisodeDescription: "First.".to_string(),
        EpisodeURL: "https://cdn.example/pilot.mp3".to_string(),
        EpisodeArtwork: "https://img.example/pilot.png".to_string(),
        EpisodePubDate: "2024-01-02".to_string(),
        EpisodeDuration: 1800,
        DownloadedLocation: Some("/downloads/pilot.mp3".to_string()),
        ListenDuration: None,
    }
}

fn found() -> SearchEpisode {
    SearchEpisode {
        PodcastID: 3,
        PodcastName: "Show".to_string(),
        ArtworkURL: "https://img.example/show.png".to_string(),
        Author: "Ada".to_string(),
        Categories: "{}".to_string(),
        Description: "A show.".to_string(),
        EpisodeCount: 12,
        FeedURL: "https://feeds.example/show".to_string(),
        WebsiteURL: "https://show.example".to_string(),
        Explicit: 0,
        UserID: 2,
        EpisodeID: 7,
        EpisodeTitle: "Pilot".to_string(),
        EpisodeDescription: "First.".to_string(),
        EpisodeURL: "https://cdn.example/pilot.mp3".to_string(),
        EpisodeArtwork: "https://img.example/pilot.png".to_string(),
        EpisodePubDate: "2024-01-02".to_string(),
        EpisodeDuration: 1800,
        ListenDuration: None,
    }
}

fn all_handles() -> Vec<EpisodeHandle> {
    vec![
        EpisodeHandle::Fresh(fresh()),
        EpisodeHandle::Queued(queued()),
        EpisodeHandle::Saved(saved()),
        EpisodeHandle::History(history()),
        EpisodeHandle::Downloaded(downloaded()),
        EpisodeHandle::Search(found()),
    ]
}

#[test]
fn every_kind_answers_artwork_title_and_id() {
    for handle in all_handles() {
        assert_eq!(handle.get_episode_artwork(), "https://img.example/pilot.png");
        assert_eq!(handle.get_episode_title(), "Pilot");
        assert_eq!(handle.get_episode_id(), 7);
    }
    assert_eq!(fresh().get_episode_title(), "Pilot");
    assert_eq!(queued().get_episode_artwork(), "https://img.example/pilot.png");
    assert_eq!(saved().get_episode_id(), 7);
    assert_eq!(history().get_episode_id(), 7);
    assert_eq!(downloaded().get_episode_artwork(), "https://img.example/pilot.png");
    assert_eq!(found().get_episode_title(), "Pilot");
}

#[test]
fn handles_of_different_kinds_are_never_equal() {
    let handles = all_handles();
    for (i, a) in handles.iter().enumerate() {
        for (j, b) in handles.iter().enumerate() {
            assert_eq!(a == b, i == j, "kinds {:?} and {:?}", a.kind(), b.kind());
        }
    }
}

#[test]
fn handles_of_one_kind_are_equal_when_every_field_is() {
    let a = EpisodeHandle::Queued(queued());
    let mut other = queued();
    assert!(a == EpisodeHandle::Queued(other.clone()));
    other.QueuePosition = Some(2);
    assert!(a != EpisodeHandle::Queued(other.clone()));
    let mut other = queued();
    other.EpisodeTitle.push('!');
    assert!(a != EpisodeHandle::Queued(other));
    let mut other = found();
    other.ListenDuration = Some(0);
    assert!(EpisodeHandle::Search(found()) != EpisodeHandle::Search(other));
}

#[test]
fn duplicate_equals_its_source_and_outlives_it() {
    for handle in all_handles() {
        let copy = handle.duplicate();
        assert!(copy == handle);
        assert_eq!(copy.kind(), handle.kind());
        let boxed = handle.clone_box();
        let cloned = handle.clone();
        drop(handle);
        assert!(boxed == copy);
        assert!(cloned == copy);
        assert_eq!(copy.get_episode_title(), "Pilot");
    }
}

#[test]
fn duplicate_is_independent_of_its_source() {
    let source = EpisodeHandle::Fresh(fresh());
    let mut copy = source.duplicate();
    if let EpisodeHandle::Fresh(record) = &mut copy {
        record.EpisodeTitle = "Changed".to_string();
    }
    assert_eq!(source.get_episode_title(), "Pilot");
    assert_eq!(copy.get_episode_title(), "Changed");
    assert!(source != copy);
}

#[test]
fn records_wrap_themselves_in_the_handle_of_their_kind() {
    assert_eq!(fresh().clone_box().kind(), EpisodeKind::Fresh);
    assert_eq!(queued().clone_box().kind(), EpisodeKind::Queued);
    assert_eq!(saved().clone_box().kind(), EpisodeKind::Saved);
    assert_eq!(history().clone_box().kind(), EpisodeKind::History);
    assert_eq!(downloaded().clone_box().kind(), EpisodeKind::Downloaded);
    assert_eq!(found().clone_box().kind(), EpisodeKind::Search);
    assert!(queued().clone_box() == EpisodeHandle::Queued(queued()));
}

#[test]
fn narrowing_to_another_kind_is_none() {
    let handle = EpisodeHandle::Saved(saved());
    let narrowed = handle.as_any();
    assert_eq!(narrowed.kind(), EpisodeKind::Saved);
    assert!(narrowed.saved().is_some());
    assert!(narrowed.saved().unwrap() == &saved());
    assert!(narrowed.fresh().is_none());
    assert!(narrowed.queued().is_none());
    assert!(narrowed.history().is_none());
    assert!(narrowed.downloaded().is_none());
    assert!(narrowed.search().is_none());
    let record = found();
    let narrowed: EpisodeRef = record.as_any();
    assert!(narrowed.search().is_some());
    assert!(narrowed.saved().is_none());
    assert!(narrowed.same_as(&EpisodeHandle::Search(found()).as_any()));
    assert!(!narrowed.same_as(&handle.as_any()));
}

#[test]
fn props_compare_by_their_episode() {
    let a = ContextButtonProps { episode: EpisodeHandle::History(history()) };
    let b = ContextButtonProps { episode: EpisodeHandle::History(history()) };
    let c = ContextButtonProps { episode: EpisodeHandle::Saved(saved()) };
    let d = ContextButtonProps { episode: EpisodeHandle::Downloaded(downloaded()) };
    let mut changed = history();
    changed.ListenDate = None;
    let e = ContextButtonProps { episode: EpisodeHandle::History(changed) };
    assert!(a == b);
    assert!(a != c);
    assert!(c != d);
    assert!(a != e);
    assert!(a.clone() == a);
    assert!(d.clone() == d);
}

#[test]
fn requests_name_the_episode_through_the_handle() {
    for handle in all_handles() {
        let props = ContextButtonProps { episode: handle };
        assert_eq!(
            props.queue_request(2),
            QueuePodcastRequest {
                episode_title: "Pilot".to_string(),
                ep_url: "https://img.example/pilot.png".to_string(),
                user_id: 2,
            }
        );
        assert_eq!(
            props.save_request(2),
            SavePodcastRequest {
                episode_title: "Pilot".to_string(),
                ep_url: "https://img.example/pilot.png".to_string(),
                user_id: 2,
            }
        );
        assert_eq!(props.download_request(2), DownloadEpisodeRequest { episode_id: 7, user_id: 2 });
    }
}
