//! The episode records of the backend: what it lists as recent, queued, saved,
//! played and downloaded, and the requests that act on an episode.

use crate::text::{copy_optional, same_count, same_optional};
use vstd::prelude::*;
use vstd::std_specs::cmp::PartialEqSpecImpl;

verus! {

/// An episode fresh from a followed feed.
#[derive(Debug)]
#[allow(non_snake_case)]
pub struct Episode {
    pub PodcastName: String,
    pub EpisodeTitle: String,
    pub EpisodePubDate: String,
    pub EpisodeDescription: String,
    pub EpisodeArtwork: String,
    pub EpisodeURL: String,
    pub EpisodeDuration: i32,
    pub ListenDuration: Option<i32>,
    pub EpisodeID: i32,
}

/// `Episode` as a mathematical value: every text a sequence of characters.
#[allow(non_snake_case)]
pub struct EpisodeView {
    pub PodcastName: Seq<char>,
    pub EpisodeTitle: Seq<char>,
    pub EpisodePubDate: Seq<char>,
    pub EpisodeDescription: Seq<char>,
    pub EpisodeArtwork: Seq<char>,
    pub EpisodeURL: Seq<char>,
    pub EpisodeDuration: i32,
    pub ListenDuration: Option<i32>,
    pub EpisodeID: i32,
}

impl DeepView for Episode {
    type V = EpisodeView;

    open spec fn deep_view(&self) -> EpisodeView {
        EpisodeView {
            PodcastName: self.PodcastName@,
            EpisodeTitle: self.EpisodeTitle@,
            EpisodePubDate: self.EpisodePubDate@,
            EpisodeDescription: self.EpisodeDescription@,
            EpisodeArtwork: self.EpisodeArtwork@,
            EpisodeURL: self.EpisodeURL@,
            EpisodeDuration: self.EpisodeDuration,
            ListenDuration: self.ListenDuration,
            EpisodeID: self.EpisodeID,
        }
    }
}

impl Clone for Episode {
    fn clone(&self) -> (r: Episode)
        ensures
            r.deep_view() == self.deep_view(),
    {
        Episode {
            PodcastName: self.PodcastName.clone(),
            EpisodeTitle: self.EpisodeTitle.clone(),
            EpisodePubDate: self.EpisodePubDate.clone(),
            EpisodeDescription: self.EpisodeDescription.clone(),
            EpisodeArtwork: self.EpisodeArtwork.clone(),
            EpisodeURL: self.EpisodeURL.clone(),
            EpisodeDuration: self.EpisodeDuration,
            ListenDuration: self.ListenDuration,
            EpisodeID: self.EpisodeID,
        }
    }
}

impl PartialEq for Episode {
    fn eq(&self, other: &Episode) -> (r: bool) {
        self.PodcastName == other.PodcastName
            && self.EpisodeTitle == other.EpisodeTitle
            && self.EpisodePubDate == other.EpisodePubDate
            && self.EpisodeDescription == other.EpisodeDescription
            && self.EpisodeArtwork == other.EpisodeArtwork
            && self.EpisodeURL == other.EpisodeURL
            && self.EpisodeDuration == other.EpisodeDuration
            && same_count(self.ListenDuration, other.ListenDuration)
            && self.EpisodeID == other.EpisodeID
    }
}

impl PartialEqSpecImpl for Episode {
    open spec fn obeys_eq_spec() -> bool {
        true
    }

    open spec fn eq_spec(&self, other: &Episode) -> bool {
        self.deep_view() == other.deep_view()
    }
}

/// An episode in the play queue.
#[derive(Debug)]
#[allow(non_snake_case)]
pub struct QueuedEpisode {
    pub EpisodeTitle: String,
    pub PodcastName: String,
    pub EpisodePubDate: String,
    pub EpisodeDescription: String,
    pub EpisodeArtwork: String,
    pub EpisodeURL: String,
    pub QueuePosition: Option<i32>,
    pub EpisodeDuration: i32,
    pub QueueDate: String,
    pub ListenDuration: Option<i32>,
    pub EpisodeID: i32,
}

/// `QueuedEpisode` as a mathematical value: every text a sequence of characters.
#[allow(non_snake_case)]
pub struct QueuedEpisodeView {
    pub EpisodeTitle: Seq<char>,
    pub PodcastName: Seq<char>,
    pub EpisodePubDate: Seq<char>,
    pub EpisodeDescription: Seq<char>,
    pub EpisodeArtwork: Seq<char>,
    pub EpisodeURL: Seq<char>,
    pub QueuePosition: Option<i32>,
    pub EpisodeDuration: i32,
    pub QueueDate: Seq<char>,
    pub ListenDuration: Option<i32>,
    pub EpisodeID: i32,
}

impl DeepView for QueuedEpisode {
    type V = QueuedEpisodeView;

    open spec fn deep_view(&self) -> QueuedEpisodeView {
        QueuedEpisodeView {
            EpisodeTitle: self.EpisodeTitle@,
            PodcastName: self.PodcastName@,
            EpisodePubDate: self.EpisodePubDate@,
            EpisodeDescription: self.EpisodeDescription@,
            EpisodeArtwork: self.EpisodeArtwork@,
            EpisodeURL: self.EpisodeURL@,
            QueuePosition: self.QueuePosition,
            EpisodeDuration: self.EpisodeDuration,
            QueueDate: self.QueueDate@,
            ListenDuration: self.ListenDuration,
            EpisodeID: self.EpisodeID,
        }
    }
}

impl Clone for QueuedEpisode {
    fn clone(&self) -> (r: QueuedEpisode)
        ensures
            r.deep_view() == self.deep_view(),
    {
        QueuedEpisode {
            EpisodeTitle: self.EpisodeTitle.clone(),
            PodcastName: self.PodcastName.clone(),
            EpisodePubDate: self.EpisodePubDate.clone(),
            EpisodeDescription: self.EpisodeDescription.clone(),
            EpisodeArtwork: self.EpisodeArtwork.clone(),
            EpisodeURL: self.EpisodeURL.clone(),
            QueuePosition: self.QueuePosition,
            EpisodeDuration: self.EpisodeDuration,
            QueueDate: self.QueueDate.clone(),
            ListenDuration: self.ListenDuration,
            EpisodeID: self.EpisodeID,
        }
    }
}

impl PartialEq for QueuedEpisode {
    fn eq(&self, other: &QueuedEpisode) -> (r: bool) {
        self.EpisodeTitle == other.EpisodeTitle
            && self.PodcastName == other.PodcastName
            && self.EpisodePubDate == other.EpisodePubDate
            && self.EpisodeDescription == other.EpisodeDescription
            && self.EpisodeArtwork == other.EpisodeArtwork
            && self.EpisodeURL == other.EpisodeURL
            && same_count(self.QueuePosition, other.QueuePosition)
            && self.EpisodeDuration == other.EpisodeDuration
            && self.QueueDate == other.QueueDate
            && same_count(self.ListenDuration, other.ListenDuration)
            && self.EpisodeID == other.EpisodeID
    }
}

impl PartialEqSpecImpl for QueuedEpisode {
    open spec fn obeys_eq_spec() -> bool {
        true
    }

    open spec fn eq_spec(&self, other: &QueuedEpisode) -> bool {
        self.deep_view() == other.deep_view()
    }
}

/// An episode that the user saved.
#[derive(Debug)]
#[allow(non_snake_case)]
pub struct SavedEpisode {
    pub EpisodeTitle: String,
    pub PodcastName: String,
    pub EpisodePubDate: String,
    pub EpisodeDescription: String,
    pub EpisodeArtwork: String,
    pub EpisodeURL: String,
    pub EpisodeDuration: i32,
    pub ListenDuration: Option<i32>,
    pub EpisodeID: i32,
    pub WebsiteURL: String,
}

/// `SavedEpisode` as a mathematical value: every text a sequence of characters.
#[allow(non_snake_case)]
pub struct SavedEpisodeView {
    pub EpisodeTitle: Seq<char>,
    pub PodcastName: Seq<char>,
    pub EpisodePubDate: Seq<char>,
    pub EpisodeDescription: Seq<char>,
    pub EpisodeArtwork: Seq<char>,
    pub EpisodeURL: Seq<char>,
    pub EpisodeDuration: i32,
    pub ListenDuration: Option<i32>,
    pub EpisodeID: i32,
    pub WebsiteURL: Seq<char>,
}

impl DeepView for SavedEpisode {
    type V = SavedEpisodeView;

    open spec fn deep_view(&self) -> SavedEpisodeView {
        SavedEpisodeView {
            EpisodeTitle: self.EpisodeTitle@,
            PodcastName: self.PodcastName@,
            EpisodePubDate: self.EpisodePubDate@,
            EpisodeDescription: self.EpisodeDescription@,
            EpisodeArtwork: self.EpisodeArtwork@,
            EpisodeURL: self.EpisodeURL@,
            EpisodeDuration: self.EpisodeDuration,
            ListenDuration: self.ListenDuration,
            EpisodeID: self.EpisodeID,
            WebsiteURL: self.WebsiteURL@,
        }
    }
}

impl Clone for SavedEpisode {
    fn clone(&self) -> (r: SavedEpisode)
        ensures
            r.deep_view() == self.deep_view(),
    {
        SavedEpisode {
            EpisodeTitle: self.EpisodeTitle.clone(),
            PodcastName: self.PodcastName.clone(),
            EpisodePubDate: self.EpisodePubDate.clone(),
            EpisodeDescription: self.EpisodeDescription.clone(),
            EpisodeArtwork: self.EpisodeArtwork.clone(),
            EpisodeURL: self.EpisodeURL.clone(),
            EpisodeDuration: self.EpisodeDuration,
            ListenDuration: self.ListenDuration,
            EpisodeID: self.EpisodeID,
            WebsiteURL: self.WebsiteURL.clone(),
        }
    }
}

impl PartialEq for SavedEpisode {
    fn eq(&self, other: &SavedEpisode) -> (r: bool) {
        self.EpisodeTitle == other.EpisodeTitle
            && self.PodcastName == other.PodcastName
            && self.EpisodePubDate == other.EpisodePubDate
            && self.EpisodeDescription == other.EpisodeDescription
            && self.EpisodeArtwork == other.EpisodeArtwork
            && self.EpisodeURL == other.EpisodeURL
            && self.EpisodeDuration == other.EpisodeDuration
            && same_count(self.ListenDuration, other.ListenDuration)
            && self.EpisodeID == other.EpisodeID
            && self.WebsiteURL == other.WebsiteURL
    }
}

impl PartialEqSpecImpl for SavedEpisode {
    open spec fn obeys_eq_spec() -> bool {
        true
    }

    open spec fn eq_spec(&self, other: &SavedEpisode) -> bool {
        self.deep_view() == other.deep_view()
    }
}

/// An episode in the listening history.
#[derive(Debug)]
#[allow(non_snake_case)]
pub struct HistoryEpisode {
    pub PodcastName: String,
    pub EpisodeTitle: String,
    pub EpisodePubDate: String,
    pub EpisodeDescription: String,
    pub EpisodeArtwork: String,
    pub EpisodeURL: String,
    pub EpisodeDuration: i32,
    pub ListenDuration: Option<i32>,
    pub EpisodeID: i32,
    pub ListenDate: Option<String>,
}

/// `HistoryEpisode` as a mathematical value: every text a sequence of characters.
#[allow(non_snake_case)]
pub struct HistoryEpisodeView {
    pub PodcastName: Seq<char>,
    pub EpisodeTitle: Seq<char>,
    pub EpisodePubDate: Seq<char>,
    pub EpisodeDescription: Seq<char>,
    pub EpisodeArtwork: Seq<char>,
    pub EpisodeURL: Seq<char>,
    pub EpisodeDuration: i32,
    pub ListenDuration: Option<i32>,
    pub EpisodeID: i32,
    pub ListenDate: Option<Seq<char>>,
}

impl DeepView for HistoryEpisode {
    type V = HistoryEpisodeView;

    open spec fn deep_view(&self) -> HistoryEpisodeView {
        HistoryEpisodeView {
            PodcastName: self.PodcastName@,
            EpisodeTitle: self.EpisodeTitle@,
            EpisodePubDate: self.EpisodePubDate@,
            EpisodeDescription: self.EpisodeDescription@,
            EpisodeArtwork: self.EpisodeArtwork@,
            EpisodeURL: self.EpisodeURL@,
            EpisodeDuration: self.EpisodeDuration,
            ListenDuration: self.ListenDuration,
            EpisodeID: self.EpisodeID,
            ListenDate: self.ListenDate.deep_view(),
        }
    }
}

impl Clone for HistoryEpisode {
    fn clone(&self) -> (r: HistoryEpisode)
        ensures
            r.deep_view() == self.deep_view(),
    {
        HistoryEpisode {
            PodcastName: self.PodcastName.clone(),
            EpisodeTitle: self.EpisodeTitle.clone(),
            EpisodePubDate: self.EpisodePubDate.clone(),
            EpisodeDescription: self.EpisodeDescription.clone(),
            EpisodeArtwork: self.EpisodeArtwork.clone(),
            EpisodeURL: self.EpisodeURL.clone(),
            EpisodeDuration: self.EpisodeDuration,
            ListenDuration: self.ListenDuration,
            EpisodeID: self.EpisodeID,
            ListenDate: copy_optional(&self.ListenDate),
        }
    }
}

impl PartialEq for HistoryEpisode {
    fn eq(&self, other: &HistoryEpisode) -> (r: bool) {
        self.PodcastName == other.PodcastName
            && self.EpisodeTitle == other.EpisodeTitle
            && self.EpisodePubDate == other.EpisodePubDate
            && self.EpisodeDescription == other.EpisodeDescription
            && self.EpisodeArtwork == other.EpisodeArtwork
            && self.EpisodeURL == other.EpisodeURL
            && self.EpisodeDuration == other.EpisodeDuration
            && same_count(self.ListenDuration, other.ListenDuration)
            && self.EpisodeID == other.EpisodeID
            && same_optional(&self.ListenDate, &other.ListenDate)
    }
}

impl PartialEqSpecImpl for HistoryEpisode {
    open spec fn obeys_eq_spec() -> bool {
        true
    }

    open spec fn eq_spec(&self, other: &HistoryEpisode) -> bool {
        self.deep_view() == other.deep_view()
    }
}

/// An episode that has been downloaded to the server.
#[derive(Debug)]
#[allow(non_snake_case)]
pub struct EpisodeDownload {
    pub PodcastID: i32,
    pub PodcastName: String,
    pub ArtworkURL: String,
    pub EpisodeID: i32,
    pub EpisodeTitle: String,
    pub EpisodeDescription: String,
    pub EpisodeURL: String,
    pub EpisodeArtwork: String,
    pub EpisodePubDate: String,
    pub EpisodeDuration: i32,
    pub DownloadedLocation: Option<String>,
    pub ListenDuration: Option<i32>,
}

/// `EpisodeDownload` as a mathematical value: every text a sequence of characters.
#[allow(non_snake_case)]
pub struct EpisodeDownloadView {
    pub PodcastID: i32,
    pub PodcastName: Seq<char>,
    pub ArtworkURL: Seq<char>,
    pub EpisodeID: i32,
    pub EpisodeTitle: Seq<char>,
    pub EpisodeDescription: Seq<char>,
    pub EpisodeURL: Seq<char>,
    pub EpisodeArtwork: Seq<char>,
    pub EpisodePubDate: Seq<char>,
    pub EpisodeDuration: i32,
    pub DownloadedLocation: Option<Seq<char>>,
    pub ListenDuration: Option<i32>,
}

impl DeepView for EpisodeDownload {
    type V = EpisodeDownloadView;

    open spec fn deep_view(&self) -> EpisodeDownloadView {
        EpisodeDownloadView {
            PodcastID: self.PodcastID,
            PodcastName: self.PodcastName@,
            ArtworkURL: self.ArtworkURL@,
            EpisodeID: self.EpisodeID,
            EpisodeTitle: self.EpisodeTitle@,
            EpisodeDescription: self.EpisodeDescription@,
            EpisodeURL: self.EpisodeURL@,
            EpisodeArtwork: self.EpisodeArtwork@,
            EpisodePubDate: self.EpisodePubDate@,
            EpisodeDuration: self.EpisodeDuration,
            DownloadedLocation: self.DownloadedLocation.deep_view(),
            ListenDuration: self.ListenDuration,
        }
    }
}

impl Clone for EpisodeDownload {
    fn clone(&self) -> (r: EpisodeDownload)
        ensures
            r.deep_view() == self.deep_view(),
    {
        EpisodeDownload {
            PodcastID: self.PodcastID,
            PodcastName: self.PodcastName.clone(),
            ArtworkURL: self.ArtworkURL.clone(),
            EpisodeID: self.EpisodeID,
            EpisodeTitle: self.EpisodeTitle.clone(),
            EpisodeDescription: self.EpisodeDescription.clone(),
            EpisodeURL: self.EpisodeURL.clone(),
            EpisodeArtwork: self.EpisodeArtwork.clone(),
            EpisodePubDate: self.EpisodePubDate.clone(),
            EpisodeDuration: self.EpisodeDuration,
            DownloadedLocation: copy_optional(&self.DownloadedLocation),
            ListenDuration: self.ListenDuration,
        }
    }
}

impl PartialEq for EpisodeDownload {
    fn eq(&self, other: &EpisodeDownload) -> (r: bool) {
        self.PodcastID == other.PodcastID
            && self.PodcastName == other.PodcastName
            && self.ArtworkURL == other.ArtworkURL
            && self.EpisodeID == other.EpisodeID
            && self.EpisodeTitle == other.EpisodeTitle
            && self.EpisodeDescription == other.EpisodeDescription
            && self.EpisodeURL == other.EpisodeURL
            && self.EpisodeArtwork == other.EpisodeArtwork
            && self.EpisodePubDate == other.EpisodePubDate
            && self.EpisodeDuration == other.EpisodeDuration
            && same_optional(&self.DownloadedLocation, &other.DownloadedLocation)
            && same_count(self.ListenDuration, other.ListenDuration)
    }
}

impl PartialEqSpecImpl for EpisodeDownload {
    open spec fn obeys_eq_spec() -> bool {
        true
    }

    open spec fn eq_spec(&self, other: &EpisodeDownload) -> bool {
        self.deep_view() == other.deep_view()
    }
}

/// The request that puts an episode into the queue.
#[derive(Debug, Clone, PartialEq)]
pub struct QueuePodcastRequest {
    pub episode_title: String,
    pub ep_url: String,
    pub user_id: i32,
}

/// The request that saves an episode.
#[derive(Debug, Clone, PartialEq)]
pub struct SavePodcastRequest {
    pub episode_title: String,
    pub ep_url: String,
    pub user_id: i32,
}

/// The request that downloads an episode to the server.
#[derive(Debug, Clone, Copy, PartialEq, Eq, Structural)]
pub struct DownloadEpisodeRequest {
    pub episode_id: i32,
    pub user_id: i32,
}

} // verus!
