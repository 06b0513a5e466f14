//! What the pages show, as plain values: the decisions of the components without
//! their markup.

use crate::capability::{ContextButtonProps, EpisodeHandle, EpisodeTrait};
use crate::database::{SearchEpisode, SearchEpisodeView, SearchRequest};
use crate::orchestrator::SearchStore;
use crate::records::{DownloadEpisodeRequest, QueuePodcastRequest, SavePodcastRequest};
use crate::text::{signed_decimal, signed_text};
use vstd::prelude::*;
use vstd::string::{StrSliceExecFns, StringExecFns};

verus! {

/// What the error banner is given.
#[derive(Debug, Clone, PartialEq)]
pub struct ErrorMessageProps {
    pub error_message: Option<String>,
}

/// The text of the error banner, or `None` where there is no banner to show.
pub fn error_message(props: &ErrorMessageProps) -> (r: Option<String>)
    ensures
        r.deep_view() == props.error_message.deep_view(),
{
    match &props.error_message {
        Some(text) => Some(text.clone()),
        None => None,
    }
}

/// The placeholder that stands in for an empty list.
#[derive(Debug, Clone, PartialEq)]
pub struct EmptyMessage {
    pub image: String,
    pub image_alt: String,
    pub header: String,
    pub paragraph: String,
}

/// `EmptyMessage` as a mathematical value: every text a sequence of characters.
pub struct EmptyMessageView {
    pub image: Seq<char>,
    pub image_alt: Seq<char>,
    pub header: Seq<char>,
    pub paragraph: Seq<char>,
}

impl DeepView for EmptyMessage {
    type V = EmptyMessageView;

    open spec fn deep_view(&self) -> EmptyMessageView {
        EmptyMessageView {
            image: self.image@,
            image_alt: self.image_alt@,
            header: self.header@,
            paragraph: self.paragraph@,
        }
    }
}

/// The placeholder with the given header and paragraph under the logo.
pub open spec fn empty_message_of(header: Seq<char>, paragraph: Seq<char>) -> EmptyMessageView {
    EmptyMessageView {
        image: "static/assets/favicon.png"@,
        image_alt: "Logo"@,
        header,
        paragraph,
    }
}

/// The placeholder with the given header and paragraph under the logo.
pub fn empty_message(header: &str, paragraph: &str) -> (r: EmptyMessage)
    ensures
        r.deep_view() == empty_message_of(header@, paragraph@),
{
    EmptyMessage {
        image: "static/assets/favicon.png".to_owned(),
        image_alt: "Logo".to_owned(),
        header: header.to_owned(),
        paragraph: paragraph.to_owned(),
    }
}

/// The card of one episode: what `episode_item` lays out.
#[derive(Debug)]
pub struct EpisodeCard {
    pub artwork: String,
    pub artwork_alt: String,
    pub title: String,
    pub description: String,
    pub toggle_label: String,
    pub release: String,
    /// The episode that the card's menu acts on.
    pub menu: ContextButtonProps,
}

/// The label of the link that unfolds or folds a description.
pub open spec fn toggle_label_of(is_expanded: bool) -> Seq<char> {
    if is_expanded {
        "See Less"@
    } else {
        "See More"@
    }
}

/// The card of an episode of any kind. Artwork and title come from the episode; the
/// image is described as the cover for the title; the link reads `See Less` on an
/// unfolded description and `See More` on a folded one.
pub fn episode_item(
    episode: EpisodeHandle,
    description: String,
    is_expanded: bool,
    format_release: &str,
) -> (r: EpisodeCard)
    ensures
        r.artwork@ == episode.deep_view().artwork(),
        r.artwork_alt@ == "Cover for "@ + episode.deep_view().title(),
        r.title@ == episode.deep_view().title(),
        r.description@ == description@,
        r.toggle_label@ == toggle_label_of(is_expanded),
        r.release@ == format_release@,
        r.menu.deep_view() == episode.deep_view(),
{
    let title = episode.get_episode_title();
    let mut artwork_alt = "Cover for ".to_owned();
    artwork_alt.append(title.as_str());
    let toggle_label = if is_expanded {
        "See Less".to_owned()
    } else {
        "See More".to_owned()
    };
    EpisodeCard {
        artwork: episode.get_episode_artwork(),
        artwork_alt,
        title,
        description,
        toggle_label,
        release: format_release.to_owned(),
        menu: ContextButtonProps { episode },
    }
}

/// The entries of an episode's menu, in the order in which they are shown.
#[derive(Debug, Clone, Copy, PartialEq, Eq, Structural)]
pub enum MenuChoice {
    Queue,
    Save,
    Download,
}

/// The call that an entry of the menu makes.
#[derive(Debug, Clone, PartialEq)]
pub enum EpisodeCall {
    Queue(QueuePodcastRequest),
    Save(SavePodcastRequest),
    Download(DownloadEpisodeRequest),
}

/// The label of a menu entry.
pub fn menu_label(choice: MenuChoice) -> (r: &'static str)
    ensures
        r@ == match choice {
            MenuChoice::Queue => "Queue Episode"@,
            MenuChoice::Save => "Save Episode"@,
            MenuChoice::Download => "Download Episode"@,
        },
{
    match choice {
        MenuChoice::Queue => "Queue Episode",
        MenuChoice::Save => "Save Episode",
        MenuChoice::Download => "Download Episode",
    }
}

/// The call that the menu of an episode makes for `choice` on behalf of `user_id`.
/// Queueing and saving name the episode by its title and its artwork URL,
/// downloading by its identifier; the kind of the episode makes no difference.
pub fn context_button(props: &ContextButtonProps, choice: MenuChoice, user_id: i32) -> (r:
    EpisodeCall)
    ensures
        match choice {
            MenuChoice::Queue => r matches EpisodeCall::Queue(request) && request.episode_title@
                == props.deep_view().title() && request.ep_url@ == props.deep_view().artwork()
                && request.user_id == user_id,
            MenuChoice::Save => r matches EpisodeCall::Save(request) && request.episode_title@
                == props.deep_view().title() && request.ep_url@ == props.deep_view().artwork()
                && request.user_id == user_id,
            MenuChoice::Download => r == EpisodeCall::Download(
                DownloadEpisodeRequest { episode_id: props.deep_view().id(), user_id },
            ),
        },
{
    match choice {
        MenuChoice::Queue => EpisodeCall::Queue(props.queue_request(user_id)),
        MenuChoice::Save => EpisodeCall::Save(props.save_request(user_id)),
        MenuChoice::Download => EpisodeCall::Download(props.download_request(user_id)),
    }
}

/// A change to the list of unfolded descriptions.
#[derive(Debug, Clone, PartialEq)]
pub enum AppStateMsg {
    ExpandEpisode(String),
    CollapseEpisode(String),
}

/// Whether `list` holds `id`.
pub open spec fn holds(list: Seq<Seq<char>>, id: Seq<char>) -> bool {
    exists|i: int| 0 <= i < list.len() && list[i] == id
}

/// The list without the places that hold `id`, the rest in order.
pub open spec fn without(list: Seq<Seq<char>>, id: Seq<char>) -> Seq<Seq<char>>
    decreases list.len(),
{
    if list.len() == 0 {
        Seq::empty()
    } else if list.last() == id {
        without(list.drop_last(), id)
    } else {
        without(list.drop_last(), id).push(list.last())
    }
}

/// The list of unfolded descriptions after a change: unfolding adds the identifier
/// unless it is there, folding takes it out wherever it stands.
pub open spec fn after_message(list: Seq<Seq<char>>, message: AppStateMsg) -> Seq<Seq<char>> {
    match message {
        AppStateMsg::ExpandEpisode(id) => if holds(list, id@) {
            list
        } else {
            list.push(id@)
        },
        AppStateMsg::CollapseEpisode(id) => without(list, id@),
    }
}

/// Whether the list of unfolded descriptions holds `id`.
pub fn holds_id(list: &Vec<String>, id: &String) -> (r: bool)
    ensures
        r == holds(list.deep_view(), id@),
{
    let mut i: usize = 0;
    while i < list.len()
        invariant
            i <= list@.len(),
            forall|k: int| 0 <= k < i ==> list.deep_view()[k] != id@,
        decreases list@.len() - i,
    {
        if list[i] == *id {
            assert(list.deep_view()[i as int] == id@);
            return true;
        }
        i += 1;
    }
    false
}

/// Whether the description of the episode `id` is unfolded. Episodes are listed by
/// the decimal numeral of their identifier.
pub fn is_expanded(store: &SearchStore, id: i32) -> (r: bool)
    ensures
        r == holds(store.expanded_descriptions.deep_view(), signed_decimal(id as int)),
{
    let text = signed_text(id);
    holds_id(&store.expanded_descriptions, &text)
}

/// The change that a click on the link of the episode `id` asks for: fold an
/// unfolded description, unfold a folded one.
pub fn toggle_message(store: &SearchStore, id: i32) -> (r: AppStateMsg)
    ensures
        match r {
            AppStateMsg::CollapseEpisode(text) => text@ == signed_decimal(id as int) && holds(
                store.expanded_descriptions.deep_view(),
                signed_decimal(id as int),
            ),
            AppStateMsg::ExpandEpisode(text) => text@ == signed_decimal(id as int) && !holds(
                store.expanded_descriptions.deep_view(),
                signed_decimal(id as int),
            ),
        },
{
    let text = signed_text(id);
    if holds_id(&store.expanded_descriptions, &text) {
        AppStateMsg::CollapseEpisode(text)
    } else {
        AppStateMsg::ExpandEpisode(text)
    }
}

/// Applies a change to the list of unfolded descriptions. Nothing else in the store
/// is touched.
pub fn apply_message(store: &mut SearchStore, message: AppStateMsg)
    ensures
        final(store).expanded_descriptions.deep_view() == after_message(
            old(store).expanded_descriptions.deep_view(),
            message,
        ),
        final(store).search_results == old(store).search_results,
        final(store).search_episodes == old(store).search_episodes,
        final(store).is_loading == old(store).is_loading,
{
    match message {
        AppStateMsg::ExpandEpisode(id) => {
            if !holds_id(&store.expanded_descriptions, &id) {
                store.expanded_descriptions.push(id);
            }
        },
        AppStateMsg::CollapseEpisode(id) => {
            let mut kept: Vec<String> = Vec::new();
            let mut i: usize = 0;
            while i < store.expanded_descriptions.len()
                invariant
                    i <= store.expanded_descriptions@.len(),
                    *store == *old(store),
                    kept.deep_view() == without(
                        store.expanded_descriptions.deep_view().take(i as int),
                        id@,
                    ),
                decreases store.expanded_descriptions@.len() - i,
            {
                let ghost list = store.expanded_descriptions.deep_view();
                assert(list.take(i + 1).drop_last() =~= list.take(i as int));
                if !(store.expanded_descriptions[i] == id) {
                    kept.push(store.expanded_descriptions[i].clone());
                }
                i += 1;
            }
            assert(store.expanded_descriptions.deep_view().take(i as int)
                =~= store.expanded_descriptions.deep_view());
            store.expanded_descriptions = kept;
        },
    }
}

/// How many characters of a folded description are shown.
pub const FOLDED_LENGTH: usize = 300;

/// A description cut to `max_length` characters: the text itself where it is no
/// longer, else its first `max_length` characters and three dots.
pub open spec fn truncated(text: Seq<char>, max_length: usize) -> (Seq<char>, bool) {
    if text.len() > max_length {
        (text.subrange(0, max_length as int) + "..."@, true)
    } else {
        (text, false)
    }
}

/// Cuts a description to `max_length` characters, and tells whether it cut.
pub fn truncate_description(description: String, max_length: usize) -> (r: (String, bool))
    ensures
        (r.0@, r.1) == truncated(description@, max_length),
{
    let length = description.as_str().unicode_len();
    if length > max_length {
        let mut text = description.as_str().substring_char(0, max_length).to_owned();
        text.append("...");
        (text, true)
    } else {
        (description, false)
    }
}

/// The description as a row shows it: whole where it is unfolded, cut to
/// `FOLDED_LENGTH` characters where it is folded.
pub fn shown_description(description: String, is_expanded: bool) -> (r: (String, bool))
    ensures
        (r.0@, r.1) == if is_expanded {
            (description@, false)
        } else {
            truncated(description@, FOLDED_LENGTH)
        },
{
    if is_expanded {
        (description, false)
    } else {
        truncate_description(description, FOLDED_LENGTH)
    }
}

/// The header of the placeholder for a search that found nothing.
pub open spec fn no_results_header() -> Seq<char> {
    "No Search Results Found"@
}

/// The paragraph of the placeholder for a search that found nothing.
pub open spec fn no_results_paragraph() -> Seq<char> {
    "Perhaps try again, but search for something slightly different :/"@
}

/// One row of the search page: an episode with what the page derives for it.
#[derive(Debug)]
pub struct SearchRow {
    pub episode: SearchEpisode,
    pub is_expanded: bool,
    pub release: String,
    pub toggle: AppStateMsg,
}

/// What the search page shows below its form.
#[derive(Debug)]
pub enum SearchView {
    /// Nothing: no search has come back yet.
    Blank,
    /// The placeholder: the search found nothing.
    NoResults(EmptyMessage),
    /// The episodes found, in the order in which they came.
    Rows(Vec<SearchRow>),
}

/// The line that tells when an episode was released.
pub open spec fn release_line(date: Seq<char>) -> Seq<char> {
    "Released on: "@ + date
}

/// Whether `row` is the row of `episode` under the list `expanded` of unfolded
/// descriptions.
pub open spec fn row_for(row: SearchRow, episode: SearchEpisodeView, expanded: Seq<Seq<char>>)
    -> bool {
    let id = signed_decimal(episode.EpisodeID as int);
    &&& row.episode.deep_view() == episode
    &&& row.is_expanded == holds(expanded, id)
    &&& row.release@ == release_line(episode.EpisodePubDate)
    &&& match row.toggle {
        AppStateMsg::CollapseEpisode(text) => text@ == id && holds(expanded, id),
        AppStateMsg::ExpandEpisode(text) => text@ == id && !holds(expanded, id),
    }
}

/// The search request for what the user typed.
pub fn search_request(search_term: String, user_id: i32) -> (r: SearchRequest)
    ensures
        r.search_term == search_term,
        r.user_id == user_id,
{
    SearchRequest { search_term, user_id }
}

/// What the search page shows below its form: nothing before the first search has
/// come back, the placeholder for a search that found nothing, else one row for each
/// episode found, in order.
pub fn search(store: &SearchStore) -> (r: SearchView)
    ensures
        match store.search_episodes {
            None => r is Blank,
            Some(found) => if found.data@.len() == 0 {
                r matches SearchView::NoResults(message) && message.deep_view()
                    == empty_message_of(no_results_header(), no_results_paragraph())
            } else {
                r matches SearchView::Rows(rows) && rows@.len() == found.data@.len()
                    && forall|i: int|
                    0 <= i < rows@.len() ==> row_for(
                        #[trigger] rows@[i],
                        found.data@[i].deep_view(),
                        store.expanded_descriptions.deep_view(),
                    )
            },
        },
{
    match &store.search_episodes {
        None => SearchView::Blank,
        Some(found) => {
            if found.data.len() == 0 {
                SearchView::NoResults(
                    empty_message(
                        "No Search Results Found",
                        "Perhaps try again, but search for something slightly different :/",
                    ),
                )
            } else {
                let mut rows: Vec<SearchRow> = Vec::new();
                let mut i: usize = 0;
                while i < found.data.len()
                    invariant
                        i <= found.data@.len(),
                        rows@.len() == i,
                        forall|k: int|
                            0 <= k < i ==> row_for(
                                #[trigger] rows@[k],
                                found.data@[k].deep_view(),
                                store.expanded_descriptions.deep_view(),
                            ),
                    decreases found.data@.len() - i,
                {
                    let episode = found.data[i].clone();
                    let mut release = "Released on: ".to_owned();
                    release.append(episode.EpisodePubDate.as_str());
                    let row = SearchRow {
                        is_expanded: is_expanded(store, episode.EpisodeID),
                        toggle: toggle_message(store, episode.EpisodeID),
                        release,
                        episode,
                    };
                    rows.push(row);
                    i += 1;
                }
                SearchView::Rows(rows)
            }
        },
    }
}

} // verus!
