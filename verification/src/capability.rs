//! The uniform view of an episode: what every kind of episode record answers, and
//! the handle that holds a record of any kind.

use crate::database::{SearchEpisode, SearchEpisodeView};
use crate::records::{
    DownloadEpisodeRequest, Episode, EpisodeDownload, EpisodeDownloadView, EpisodeView,
    HistoryEpisode, HistoryEpisodeView, QueuePodcastRequest, QueuedEpisode, QueuedEpisodeView,
    SavePodcastRequest, SavedEpisode, SavedEpisodeView,
};
use vstd::prelude::*;
use vstd::std_specs::cmp::PartialEqSpec;

verus! {

/// The kinds of episode record.
#[derive(Debug, Clone, Copy, PartialEq, Eq, Structural)]
pub enum EpisodeKind {
    Fresh,
    Queued,
    Saved,
    History,
    Downloaded,
    Search,
}

/// A record of any kind, owned. This is the handle through which an episode is
/// shown and acted on.
#[derive(Debug)]
pub enum EpisodeHandle {
    /// An episode fresh from a followed feed.
    Fresh(Episode),
    /// An episode in the play queue.
    Queued(QueuedEpisode),
    /// An episode saved by the user.
    Saved(SavedEpisode),
    /// An episode in the listening history.
    History(HistoryEpisode),
    /// An episode downloaded to the server.
    Downloaded(EpisodeDownload),
    /// An episode found by a database search.
    Search(SearchEpisode),
}

/// A record of any kind, borrowed: what narrowing looks at.
#[derive(Debug, Clone, Copy)]
pub enum EpisodeRef<'a> {
    Fresh(&'a Episode),
    Queued(&'a QueuedEpisode),
    Saved(&'a SavedEpisode),
    History(&'a HistoryEpisode),
    Downloaded(&'a EpisodeDownload),
    Search(&'a SearchEpisode),
}

/// `EpisodeHandle` as a mathematical value: every text a sequence of characters.
pub enum EpisodeHandleView {
    Fresh(EpisodeView),
    Queued(QueuedEpisodeView),
    Saved(SavedEpisodeView),
    History(HistoryEpisodeView),
    Downloaded(EpisodeDownloadView),
    Search(SearchEpisodeView),
}

impl EpisodeHandleView {
    /// The kind of the record.
    pub open spec fn kind(self) -> EpisodeKind {
        match self {
            EpisodeHandleView::Fresh(_) => EpisodeKind::Fresh,
            EpisodeHandleView::Queued(_) => EpisodeKind::Queued,
            EpisodeHandleView::Saved(_) => EpisodeKind::Saved,
            EpisodeHandleView::History(_) => EpisodeKind::History,
            EpisodeHandleView::Downloaded(_) => EpisodeKind::Downloaded,
            EpisodeHandleView::Search(_) => EpisodeKind::Search,
        }
    }

    /// The record's artwork URL.
    pub open spec fn artwork(self) -> Seq<char> {
        match self {
            EpisodeHandleView::Fresh(record) => record.EpisodeArtwork,
            EpisodeHandleView::Queued(record) => record.EpisodeArtwork,
            EpisodeHandleView::Saved(record) => record.EpisodeArtwork,
            EpisodeHandleView::History(record) => record.EpisodeArtwork,
            EpisodeHandleView::Downloaded(record) => record.EpisodeArtwork,
            EpisodeHandleView::Search(record) => record.EpisodeArtwork,
        }
    }

    /// The record's title.
    pub open spec fn title(self) -> Seq<char> {
        match self {
            EpisodeHandleView::Fresh(record) => record.EpisodeTitle,
            EpisodeHandleView::Queued(record) => record.EpisodeTitle,
            EpisodeHandleView::Saved(record) => record.EpisodeTitle,
            EpisodeHandleView::History(record) => record.EpisodeTitle,
            EpisodeHandleView::Downloaded(record) => record.EpisodeTitle,
            EpisodeHandleView::Search(record) => record.EpisodeTitle,
        }
    }

    /// The record's episode identifier.
    pub open spec fn id(self) -> i32 {
        match self {
            EpisodeHandleView::Fresh(record) => record.EpisodeID,
            EpisodeHandleView::Queued(record) => record.EpisodeID,
            EpisodeHandleView::Saved(record) => record.EpisodeID,
            EpisodeHandleView::History(record) => record.EpisodeID,
            EpisodeHandleView::Downloaded(record) => record.EpisodeID,
            EpisodeHandleView::Search(record) => record.EpisodeID,
        }
    }
}

impl DeepView for EpisodeHandle {
    type V = EpisodeHandleView;

    open spec fn deep_view(&self) -> EpisodeHandleView {
        match self {
            EpisodeHandle::Fresh(record) => EpisodeHandleView::Fresh(record.deep_view()),
            EpisodeHandle::Queued(record) => EpisodeHandleView::Queued(record.deep_view()),
            EpisodeHandle::Saved(record) => EpisodeHandleView::Saved(record.deep_view()),
            EpisodeHandle::History(record) => EpisodeHandleView::History(record.deep_view()),
            EpisodeHandle::Downloaded(record) => EpisodeHandleView::Downloaded(record.deep_view()),
            EpisodeHandle::Search(record) => EpisodeHandleView::Search(record.deep_view()),
        }
    }
}

impl<'a> DeepView for EpisodeRef<'a> {
    type V = EpisodeHandleView;

    open spec fn deep_view(&self) -> EpisodeHandleView {
        match self {
            EpisodeRef::Fresh(record) => EpisodeHandleView::Fresh(record.deep_view()),
            EpisodeRef::Queued(record) => EpisodeHandleView::Queued(record.deep_view()),
            EpisodeRef::Saved(record) => EpisodeHandleView::Saved(record.deep_view()),
            EpisodeRef::History(record) => EpisodeHandleView::History(record.deep_view()),
            EpisodeRef::Downloaded(record) => EpisodeHandleView::Downloaded(record.deep_view()),
            EpisodeRef::Search(record) => EpisodeHandleView::Search(record.deep_view()),
        }
    }
}

/// What every kind of episode record answers.
pub trait EpisodeTrait {
    /// The record as a record of its kind.
    spec fn narrowed(&self) -> EpisodeHandleView;

    /// The artwork URL.
    fn get_episode_artwork(&self) -> (r: String)
        ensures
            r@ == self.narrowed().artwork(),
    ;

    /// The title.
    fn get_episode_title(&self) -> (r: String)
        ensures
            r@ == self.narrowed().title(),
    ;

    /// The episode identifier.
    fn get_episode_id(&self) -> (r: i32)
        ensures
            r == self.narrowed().id(),
    ;

    /// An owned copy, wrapped as a handle. It equals the record it was made from and
    /// lives on after that record is gone.
    fn clone_box(&self) -> (r: EpisodeHandle)
        ensures
            r.deep_view() == self.narrowed(),
    ;

    /// The record together with its kind, for narrowing.
    fn as_any(&self) -> (r: EpisodeRef<'_>)
        ensures
            r.deep_view() == self.narrowed(),
    ;
}

impl EpisodeTrait for Episode {
    open spec fn narrowed(&self) -> EpisodeHandleView {
        EpisodeHandleView::Fresh(self.deep_view())
    }

    fn get_episode_artwork(&self) -> (r: String) {
        self.EpisodeArtwork.clone()
    }

    fn get_episode_title(&self) -> (r: String) {
        self.EpisodeTitle.clone()
    }

    fn get_episode_id(&self) -> (r: i32) {
        self.EpisodeID
    }

    fn clone_box(&self) -> (r: EpisodeHandle) {
        EpisodeHandle::Fresh(self.clone())
    }

    fn as_any(&self) -> (r: EpisodeRef<'_>) {
        EpisodeRef::Fresh(self)
    }
}

impl EpisodeTrait for QueuedEpisode {
    open spec fn narrowed(&self) -> EpisodeHandleView {
        EpisodeHandleView::Queued(self.deep_view())
    }

    fn get_episode_artwork(&self) -> (r: String) {
        self.EpisodeArtwork.clone()
    }

    fn get_episode_title(&self) -> (r: String) {
        self.EpisodeTitle.clone()
    }

    fn get_episode_id(&self) -> (r: i32) {
        self.EpisodeID
    }

    fn clone_box(&self) -> (r: EpisodeHandle) {
        EpisodeHandle::Queued(self.clone())
    }

    fn as_any(&self) -> (r: EpisodeRef<'_>) {
        EpisodeRef::Queued(self)
    }
}

impl EpisodeTrait for SavedEpisode {
    open spec fn narrowed(&self) -> EpisodeHandleView {
        EpisodeHandleView::Saved(self.deep_view())
    }

    fn get_episode_artwork(&self) -> (r: String) {
        self.EpisodeArtwork.clone()
    }

    fn get_episode_title(&self) -> (r: String) {
        self.EpisodeTitle.clone()
    }

    fn get_episode_id(&self) -> (r: i32) {
        self.EpisodeID
    }

    fn clone_box(&self) -> (r: EpisodeHandle) {
        EpisodeHandle::Saved(self.clone())
    }

    fn as_any(&self) -> (r: EpisodeRef<'_>) {
        EpisodeRef::Saved(self)
    }
}

impl EpisodeTrait for HistoryEpisode {
    open spec fn narrowed(&self) -> EpisodeHandleView {
        EpisodeHandleView::History(self.deep_view())
    }

    fn get_episode_artwork(&self) -> (r: String) {
        self.EpisodeArtwork.clone()
    }

    fn get_episode_title(&self) -> (r: String) {
        self.EpisodeTitle.clone()
    }

    fn get_episode_id(&self) -> (r: i32) {
        self.EpisodeID
    }

    fn clone_box(&self) -> (r: EpisodeHandle) {
        EpisodeHandle::History(self.clone())
    }

    fn as_any(&self) -> (r: EpisodeRef<'_>) {
        EpisodeRef::History(self)
    }
}

impl EpisodeTrait for EpisodeDownload {
    open spec fn narrowed(&self) -> EpisodeHandleView {
        EpisodeHandleView::Downloaded(self.deep_view())
    }

    fn get_episode_artwork(&self) -> (r: String) {
        self.EpisodeArtwork.clone()
    }

    fn get_episode_title(&self) -> (r: String) {
        self.EpisodeTitle.clone()
    }

    fn get_episode_id(&self) -> (r: i32) {
        self.EpisodeID
    }

    fn clone_box(&self) -> (r: EpisodeHandle) {
        EpisodeHandle::Downloaded(self.clone())
    }

    fn as_any(&self) -> (r: EpisodeRef<'_>) {
        EpisodeRef::Downloaded(self)
    }
}

impl EpisodeTrait for SearchEpisode {
    open spec fn narrowed(&self) -> EpisodeHandleView {
        EpisodeHandleView::Search(self.deep_view())
    }

    fn get_episode_artwork(&self) -> (r: String) {
        self.EpisodeArtwork.clone()
    }

    fn get_episode_title(&self) -> (r: String) {
        self.EpisodeTitle.clone()
    }

    fn get_episode_id(&self) -> (r: i32) {
        self.EpisodeID
    }

    fn clone_box(&self) -> (r: EpisodeHandle) {
        EpisodeHandle::Search(self.clone())
    }

    fn as_any(&self) -> (r: EpisodeRef<'_>) {
        EpisodeRef::Search(self)
    }
}

impl<'a> EpisodeRef<'a> {
    /// The kind of the record.
    pub fn kind(&self) -> (r: EpisodeKind)
        ensures
            r == self.deep_view().kind(),
    {
        match self {
            EpisodeRef::Fresh(_) => EpisodeKind::Fresh,
            EpisodeRef::Queued(_) => EpisodeKind::Queued,
            EpisodeRef::Saved(_) => EpisodeKind::Saved,
            EpisodeRef::History(_) => EpisodeKind::History,
            EpisodeRef::Downloaded(_) => EpisodeKind::Downloaded,
            EpisodeRef::Search(_) => EpisodeKind::Search,
        }
    }

    /// The record, if it is one fresh from a followed feed; `None` for every other kind.
    pub fn fresh(&self) -> (r: Option<&'a Episode>)
        ensures
            match r {
                Some(record) => self.deep_view() == EpisodeHandleView::Fresh(record.deep_view()),
                None => self.deep_view().kind() != EpisodeKind::Fresh,
            },
    {
        match self {
            EpisodeRef::Fresh(record) => Some(*record),
            _ => None,
        }
    }

    /// The record, if it is one in the play queue; `None` for every other kind.
    pub fn queued(&self) -> (r: Option<&'a QueuedEpisode>)
        ensures
            match r {
                Some(record) => self.deep_view() == EpisodeHandleView::Queued(record.deep_view()),
                None => self.deep_view().kind() != EpisodeKind::Queued,
            },
    {
        match self {
            EpisodeRef::Queued(record) => Some(*record),
            _ => None,
        }
    }

    /// The record, if it is one saved by the user; `None` for every other kind.
    pub fn saved(&self) -> (r: Option<&'a SavedEpisode>)
        ensures
            match r {
                Some(record) => self.deep_view() == EpisodeHandleView::Saved(record.deep_view()),
                None => self.deep_view().kind() != EpisodeKind::Saved,
            },
    {
        match self {
            EpisodeRef::Saved(record) => Some(*record),
            _ => None,
        }
    }

    /// The record, if it is one in the listening history; `None` for every other kind.
    pub fn history(&self) -> (r: Option<&'a HistoryEpisode>)
        ensures
            match r {
                Some(record) => self.deep_view() == EpisodeHandleView::History(record.deep_view()),
                None => self.deep_view().kind() != EpisodeKind::History,
            },
    {
        match self {
            EpisodeRef::History(record) => Some(*record),
            _ => None,
        }
    }

    /// The record, if it is one downloaded to the server; `None` for every other kind.
    pub fn downloaded(&self) -> (r: Option<&'a EpisodeDownload>)
        ensures
            match r {
                Some(record) => self.deep_view() == EpisodeHandleView::Downloaded(record.deep_view()),
                None => self.deep_view().kind() != EpisodeKind::Downloaded,
            },
    {
        match self {
            EpisodeRef::Downloaded(record) => Some(*record),
            _ => None,
        }
    }

    /// The record, if it is one found by a database search; `None` for every other kind.
    pub fn search(&self) -> (r: Option<&'a SearchEpisode>)
        ensures
            match r {
                Some(record) => self.deep_view() == EpisodeHandleView::Search(record.deep_view()),
                None => self.deep_view().kind() != EpisodeKind::Search,
            },
    {
        match self {
            EpisodeRef::Search(record) => Some(*record),
            _ => None,
        }
    }

    /// Whether the two records are of one kind and alike in every field.
    pub fn same_as(&self, other: &EpisodeRef<'_>) -> (r: bool)
        ensures
            r == (self.deep_view() == other.deep_view()),
    {
        match (self, other) {
            (EpisodeRef::Fresh(a), EpisodeRef::Fresh(b)) => **a == **b,
            (EpisodeRef::Queued(a), EpisodeRef::Queued(b)) => **a == **b,
            (EpisodeRef::Saved(a), EpisodeRef::Saved(b)) => **a == **b,
            (EpisodeRef::History(a), EpisodeRef::History(b)) => **a == **b,
            (EpisodeRef::Downloaded(a), EpisodeRef::Downloaded(b)) => **a == **b,
            (EpisodeRef::Search(a), EpisodeRef::Search(b)) => **a == **b,
            _ => false,
        }
    }
}

impl EpisodeTrait for EpisodeHandle {
    open spec fn narrowed(&self) -> EpisodeHandleView {
        self.deep_view()
    }

    fn get_episode_artwork(&self) -> (r: String) {
        match self {
            EpisodeHandle::Fresh(record) => record.get_episode_artwork(),
            EpisodeHandle::Queued(record) => record.get_episode_artwork(),
            EpisodeHandle::Saved(record) => record.get_episode_artwork(),
            EpisodeHandle::History(record) => record.get_episode_artwork(),
            EpisodeHandle::Downloaded(record) => record.get_episode_artwork(),
            EpisodeHandle::Search(record) => record.get_episode_artwork(),
        }
    }

    fn get_episode_title(&self) -> (r: String) {
        match self {
            EpisodeHandle::Fresh(record) => record.get_episode_title(),
            EpisodeHandle::Queued(record) => record.get_episode_title(),
            EpisodeHandle::Saved(record) => record.get_episode_title(),
            EpisodeHandle::History(record) => record.get_episode_title(),
            EpisodeHandle::Downloaded(record) => record.get_episode_title(),
            EpisodeHandle::Search(record) => record.get_episode_title(),
        }
    }

    fn get_episode_id(&self) -> (r: i32) {
        match self {
            EpisodeHandle::Fresh(record) => record.get_episode_id(),
            EpisodeHandle::Queued(record) => record.get_episode_id(),
            EpisodeHandle::Saved(record) => record.get_episode_id(),
            EpisodeHandle::History(record) => record.get_episode_id(),
            EpisodeHandle::Downloaded(record) => record.get_episode_id(),
            EpisodeHandle::Search(record) => record.get_episode_id(),
        }
    }

    fn clone_box(&self) -> (r: EpisodeHandle) {
        match self {
            EpisodeHandle::Fresh(record) => record.clone_box(),
            EpisodeHandle::Queued(record) => record.clone_box(),
            EpisodeHandle::Saved(record) => record.clone_box(),
            EpisodeHandle::History(record) => record.clone_box(),
            EpisodeHandle::Downloaded(record) => record.clone_box(),
            EpisodeHandle::Search(record) => record.clone_box(),
        }
    }

    fn as_any(&self) -> (r: EpisodeRef<'_>) {
        match self {
            EpisodeHandle::Fresh(record) => EpisodeRef::Fresh(record),
            EpisodeHandle::Queued(record) => EpisodeRef::Queued(record),
            EpisodeHandle::Saved(record) => EpisodeRef::Saved(record),
            EpisodeHandle::History(record) => EpisodeRef::History(record),
            EpisodeHandle::Downloaded(record) => EpisodeRef::Downloaded(record),
            EpisodeHandle::Search(record) => EpisodeRef::Search(record),
        }
    }
}

impl EpisodeHandle {
    /// The kind of the record that the handle holds.
    pub fn kind(&self) -> (r: EpisodeKind)
        ensures
            r == self.deep_view().kind(),
    {
        self.as_any().kind()
    }

    /// An independent copy of the handle, equal to it.
    pub fn duplicate(&self) -> (r: EpisodeHandle)
        ensures
            r.deep_view() == self.deep_view(),
            r.eq_spec(self),
    {
        self.clone_box()
    }
}

impl Clone for EpisodeHandle {
    fn clone(&self) -> (r: EpisodeHandle)
        ensures
            r.deep_view() == self.deep_view(),
    {
        self.clone_box()
    }
}

impl PartialEq for EpisodeHandle {
    fn eq(&self, other: &EpisodeHandle) -> (r: bool) {
        self.as_any().same_as(&other.as_any())
    }
}

impl vstd::std_specs::cmp::PartialEqSpecImpl for EpisodeHandle {
    open spec fn obeys_eq_spec() -> bool {
        true
    }

    open spec fn eq_spec(&self, other: &EpisodeHandle) -> bool {
        self.deep_view() == other.deep_view()
    }
}

/// Two handles are equal exactly when they hold records of one kind that are alike
/// in every field.
pub proof fn lemma_equal_handles(a: EpisodeHandle, b: EpisodeHandle)
    ensures
        a.eq_spec(&b) <==> a.deep_view().kind() == b.deep_view().kind() && a.deep_view()
            == b.deep_view(),
        a.eq_spec(&b) ==> a.deep_view().artwork() == b.deep_view().artwork()
            && a.deep_view().title() == b.deep_view().title() && a.deep_view().id()
            == b.deep_view().id(),
{
}

/// Handles of different kinds are never equal, whatever their records hold.
pub proof fn lemma_kinds_differ(a: EpisodeHandle, b: EpisodeHandle)
    requires
        a.deep_view().kind() != b.deep_view().kind(),
    ensures
        !a.eq_spec(&b),
        !b.eq_spec(&a),
{
}

/// What the menu of an episode is given: the episode it acts on.
#[derive(Debug)]
pub struct ContextButtonProps {
    pub episode: EpisodeHandle,
}

impl DeepView for ContextButtonProps {
    type V = EpisodeHandleView;

    open spec fn deep_view(&self) -> EpisodeHandleView {
        self.episode.deep_view()
    }
}

impl Clone for ContextButtonProps {
    fn clone(&self) -> (r: ContextButtonProps)
        ensures
            r.deep_view() == self.deep_view(),
    {
        ContextButtonProps { episode: self.episode.clone_box() }
    }
}

impl PartialEq for ContextButtonProps {
    fn eq(&self, other: &ContextButtonProps) -> (r: bool) {
        self.episode.as_any().same_as(&other.episode.as_any())
    }
}

impl vstd::std_specs::cmp::PartialEqSpecImpl for ContextButtonProps {
    open spec fn obeys_eq_spec() -> bool {
        true
    }

    open spec fn eq_spec(&self, other: &ContextButtonProps) -> bool {
        self.episode.deep_view() == other.episode.deep_view()
    }
}

impl ContextButtonProps {
    /// The request that queues the episode for `user_id`. It names the episode by its
    /// title and its artwork URL.
    pub fn queue_request(&self, user_id: i32) -> (r: QueuePodcastRequest)
        ensures
            r.episode_title@ == self.deep_view().title(),
            r.ep_url@ == self.deep_view().artwork(),
            r.user_id == user_id,
    {
        QueuePodcastRequest {
            episode_title: self.episode.get_episode_title(),
            ep_url: self.episode.get_episode_artwork(),
            user_id,
        }
    }

    /// The request that saves the episode for `user_id`. It names the episode by its
    /// title and its artwork URL.
    pub fn save_request(&self, user_id: i32) -> (r: SavePodcastRequest)
        ensures
            r.episode_title@ == self.deep_view().title(),
            r.ep_url@ == self.deep_view().artwork(),
            r.user_id == user_id,
    {
        SavePodcastRequest {
            episode_title: self.episode.get_episode_title(),
            ep_url: self.episode.get_episode_artwork(),
            user_id,
        }
    }

    /// The request that downloads the episode for `user_id`.
    pub fn download_request(&self, user_id: i32) -> (r: DownloadEpisodeRequest)
        ensures
            r == (DownloadEpisodeRequest { episode_id: self.deep_view().id(), user_id }),
    {
        DownloadEpisodeRequest { episode_id: self.episode.get_episode_id(), user_id }
    }
}

} // verus!
