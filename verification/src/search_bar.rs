//! The search bar: what it remembers between events, and when it submits.

use crate::orchestrator::{SearchEvent, SearchEventView};
use crate::text::reads_as;
use vstd::prelude::*;

verus! {

/// The directory providers that the bar offers.
#[derive(Debug, Clone, Copy, PartialEq, Eq, Structural)]
pub enum Provider {
    PodcastIndex,
    ITunes,
}

/// The key by which the search endpoint knows a provider.
pub open spec fn provider_key(provider: Provider) -> Seq<char> {
    match provider {
        Provider::PodcastIndex => "podcast_index"@,
        Provider::ITunes => "itunes"@,
    }
}

impl Provider {
    /// The key by which the search endpoint knows the provider.
    pub fn key(self) -> (r: &'static str)
        ensures
            r@ == provider_key(self),
    {
        match self {
            Provider::PodcastIndex => "podcast_index",
            Provider::ITunes => "itunes",
        }
    }

    /// The name under which the bar lists the provider.
    pub fn label(self) -> (r: &'static str)
        ensures
            r@ == match self {
                Provider::PodcastIndex => "Podcast Index"@,
                Provider::ITunes => "iTunes"@,
            },
    {
        match self {
            Provider::PodcastIndex => "Podcast Index",
            Provider::ITunes => "iTunes",
        }
    }
}

/// What the bar remembers.
#[derive(Debug, Clone, PartialEq)]
pub struct SearchBarState {
    /// The text typed so far.
    pub podcast_value: String,
    /// The key of the provider to search.
    pub search_index: String,
    /// Whether the provider list is open.
    pub dropdown_open: bool,
    /// Whether the panel for narrow windows is open.
    pub mobile_dropdown_open: bool,
}

/// `SearchBar` as a mathematical value: every text a sequence of characters.
pub struct SearchBarView {
    pub podcast_value: Seq<char>,
    pub search_index: Seq<char>,
    pub dropdown_open: bool,
    pub mobile_dropdown_open: bool,
}

impl DeepView for SearchBarState {
    type V = SearchBarView;

    open spec fn deep_view(&self) -> SearchBarView {
        SearchBarView {
            podcast_value: self.podcast_value@,
            search_index: self.search_index@,
            dropdown_open: self.dropdown_open,
            mobile_dropdown_open: self.mobile_dropdown_open,
        }
    }
}

/// What happens to the bar.
#[derive(Debug, Clone, PartialEq)]
pub enum SearchBarEvent {
    /// The text field changed to this text.
    Input(String),
    /// A provider was picked by its key, from the select box or a radio button.
    IndexChanged(String),
    /// The button that opens and closes the provider list was clicked.
    DropdownToggled,
    /// A provider was picked from the open list.
    DropdownSelected(Provider),
    /// The panel for narrow windows was opened or closed.
    MobileDropdownToggled,
    /// The search button was clicked; `narrow` tells whether the window is narrow.
    SearchClicked { narrow: bool },
    /// The search button inside the panel for narrow windows was clicked.
    SubmitClicked,
    /// The form was submitted from the keyboard.
    FormSubmitted,
}

/// `SearchBarEvent` as a mathematical value: every text a sequence of characters.
pub enum SearchBarEventView {
    Input(Seq<char>),
    IndexChanged(Seq<char>),
    DropdownToggled,
    DropdownSelected(Provider),
    MobileDropdownToggled,
    SearchClicked { narrow: bool },
    SubmitClicked,
    FormSubmitted,
}

impl DeepView for SearchBarEvent {
    type V = SearchBarEventView;

    open spec fn deep_view(&self) -> SearchBarEventView {
        match self {
            SearchBarEvent::Input(text) => SearchBarEventView::Input(text@),
            SearchBarEvent::IndexChanged(key) => SearchBarEventView::IndexChanged(key@),
            SearchBarEvent::DropdownToggled => SearchBarEventView::DropdownToggled,
            SearchBarEvent::DropdownSelected(provider) => SearchBarEventView::DropdownSelected(
                *provider,
            ),
            SearchBarEvent::MobileDropdownToggled => SearchBarEventView::MobileDropdownToggled,
            SearchBarEvent::SearchClicked { narrow } => SearchBarEventView::SearchClicked {
                narrow: *narrow,
            },
            SearchBarEvent::SubmitClicked => SearchBarEventView::SubmitClicked,
            SearchBarEvent::FormSubmitted => SearchBarEventView::FormSubmitted,
        }
    }
}

/// The bar as it starts: no text, the structured directory picked, all closed.
pub open spec fn initial_bar() -> SearchBarView {
    SearchBarView {
        podcast_value: Seq::empty(),
        search_index: provider_key(Provider::PodcastIndex),
        dropdown_open: false,
        mobile_dropdown_open: false,
    }
}

/// The bar after an event.
pub open spec fn bar_after(bar: SearchBarView, event: SearchBarEventView) -> SearchBarView {
    match event {
        SearchBarEventView::Input(text) => SearchBarView { podcast_value: text, ..bar },
        SearchBarEventView::IndexChanged(key) => SearchBarView { search_index: key, ..bar },
        SearchBarEventView::DropdownToggled => SearchBarView {
            dropdown_open: !bar.dropdown_open,
            ..bar
        },
        SearchBarEventView::DropdownSelected(provider) => SearchBarView {
            search_index: provider_key(provider),
            dropdown_open: false,
            ..bar
        },
        SearchBarEventView::MobileDropdownToggled => SearchBarView {
            mobile_dropdown_open: !bar.mobile_dropdown_open,
            ..bar
        },
        SearchBarEventView::SearchClicked { narrow } => if narrow {
            SearchBarView { mobile_dropdown_open: !bar.mobile_dropdown_open, ..bar }
        } else {
            bar
        },
        SearchBarEventView::SubmitClicked => bar,
        SearchBarEventView::FormSubmitted => bar,
    }
}

/// Whether an event submits the search: the form and the panel's button always do,
/// the search button only in a window that is not narrow, where it opens the panel
/// instead.
pub open spec fn submits(event: SearchBarEventView) -> bool {
    match event {
        SearchBarEventView::SearchClicked { narrow } => !narrow,
        SearchBarEventView::SubmitClicked => true,
        SearchBarEventView::FormSubmitted => true,
        _ => false,
    }
}

impl SearchBarState {
    /// The bar as it starts.
    pub fn new() -> (r: SearchBarState)
        ensures
            r.deep_view() == initial_bar(),
    {
        SearchBarState {
            podcast_value: String::new(),
            search_index: Provider::PodcastIndex.key().to_owned(),
            dropdown_open: false,
            mobile_dropdown_open: false,
        }
    }

    /// Whether `provider` is the one picked.
    pub fn is_active(&self, provider: Provider) -> (r: bool)
        ensures
            r == (self.search_index@ == provider_key(provider)),
    {
        reads_as(&self.search_index, provider.key())
    }

    /// The submission of what the bar holds, to the endpoint `api_url`.
    pub fn submission(&self, api_url: Option<String>) -> (r: SearchEvent)
        ensures
            r.deep_view() == (SearchEventView::Submitted {
                api_url: api_url.deep_view(),
                term: self.podcast_value@,
                index: self.search_index@,
            }),
    {
        SearchEvent::Submitted {
            api_url,
            term: self.podcast_value.clone(),
            index: self.search_index.clone(),
        }
    }
}

/// Takes an event of the search bar: gives the bar after it, and whether the search
/// is to be submitted now.
pub fn search_bar(state: SearchBarState, event: SearchBarEvent) -> (r: (SearchBarState, bool))
    ensures
        r.0.deep_view() == bar_after(state.deep_view(), event.deep_view()),
        r.1 == submits(event.deep_view()),
{
    let mut next = state;
    match event {
        SearchBarEvent::Input(text) => {
            next.podcast_value = text;
            (next, false)
        },
        SearchBarEvent::IndexChanged(key) => {
            next.search_index = key;
            (next, false)
        },
        SearchBarEvent::DropdownToggled => {
            next.dropdown_open = !next.dropdown_open;
            (next, false)
        },
        SearchBarEvent::DropdownSelected(provider) => {
            next.search_index = provider.key().to_owned();
            next.dropdown_open = false;
            (next, false)
        },
        SearchBarEvent::MobileDropdownToggled => {
            next.mobile_dropdown_open = !next.mobile_dropdown_open;
            (next, false)
        },
        SearchBarEvent::SearchClicked { narrow } => {
            if narrow {
                next.mobile_dropdown_open = !next.mobile_dropdown_open;
                (next, false)
            } else {
                (next, true)
            }
        },
        SearchBarEvent::SubmitClicked => (next, true),
        SearchBarEvent::FormSubmitted => (next, true),
    }
}

} // verus!
