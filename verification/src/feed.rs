//! Feed documents as plain values: the channel, its podcast extension, and its items.

use vstd::prelude::*;

verus! {

/// The media attachment of a feed item.
#[derive(Debug, Clone, PartialEq)]
pub struct FeedEnclosure {
    pub url: String,
    pub length: String,
}

/// What an item says in the podcast extension's elements.
#[derive(Debug, Clone, PartialEq)]
pub struct ItemExtension {
    pub image: Option<String>,
    pub duration: Option<String>,
}

/// The text elements of a feed item.
#[derive(Debug, Clone, PartialEq)]
pub struct ItemText {
    pub title: Option<String>,
    pub link: Option<String>,
    pub description: Option<String>,
    pub author: Option<String>,
    pub pub_date: Option<String>,
    pub content: Option<String>,
}

/// The identifier and the attachment of a feed item.
#[derive(Debug, Clone, PartialEq)]
pub struct ItemMedia {
    pub guid: Option<String>,
    pub enclosure: Option<FeedEnclosure>,
}

/// One item of a feed document.
#[derive(Debug, Clone, PartialEq)]
pub struct FeedItem {
    pub text: ItemText,
    pub media: ItemMedia,
    pub extension: Option<ItemExtension>,
}

/// The channel's own elements.
#[derive(Debug, Clone, PartialEq)]
pub struct FeedHead {
    pub title: String,
    pub link: String,
    pub description: String,
    /// The URL of the channel's image element.
    pub image_url: Option<String>,
}

/// What the channel says in the podcast extension's elements.
#[derive(Debug, Clone, PartialEq)]
pub struct ChannelExtension {
    pub image: Option<String>,
    pub author: Option<String>,
    pub explicit: Option<String>,
}

/// A feed document: the channel and its items in document order.
#[derive(Debug, Clone, PartialEq)]
pub struct Feed {
    pub head: FeedHead,
    pub extension: Option<ChannelExtension>,
    /// The names of the channel's categories.
    pub categories: Vec<String>,
    pub items: Vec<FeedItem>,
}

/// `FeedEnclosure` as a mathematical value: every text a sequence of characters.
pub struct FeedEnclosureView {
    pub url: Seq<char>,
    pub length: Seq<char>,
}

/// `ItemExtension` as a mathematical value: every text a sequence of characters.
pub struct ItemExtensionView {
    pub image: Option<Seq<char>>,
    pub duration: Option<Seq<char>>,
}

/// `ItemText` as a mathematical value: every text a sequence of characters.
pub struct ItemTextView {
    pub title: Option<Seq<char>>,
    pub link: Option<Seq<char>>,
    pub description: Option<Seq<char>>,
    pub author: Option<Seq<char>>,
    pub pub_date: Option<Seq<char>>,
    pub content: Option<Seq<char>>,
}

/// `ItemMedia` as a mathematical value: every text a sequence of characters.
pub struct ItemMediaView {
    pub guid: Option<Seq<char>>,
    pub enclosure: Option<FeedEnclosureView>,
}

/// `FeedItem` as a mathematical value: every text a sequence of characters.
pub struct FeedItemView {
    pub text: ItemTextView,
    pub media: ItemMediaView,
    pub extension: Option<ItemExtensionView>,
}

/// `FeedHead` as a mathematical value: every text a sequence of characters.
pub struct FeedHeadView {
    pub title: Seq<char>,
    pub link: Seq<char>,
    pub description: Seq<char>,
    pub image_url: Option<Seq<char>>,
}

/// `ChannelExtension` as a mathematical value: every text a sequence of characters.
pub struct ChannelExtensionView {
    pub image: Option<Seq<char>>,
    pub author: Option<Seq<char>>,
    pub explicit: Option<Seq<char>>,
}

/// `Feed` as a mathematical value: every text a sequence of characters.
pub struct FeedView {
    pub head: FeedHeadView,
    pub extension: Option<ChannelExtensionView>,
    pub categories: Seq<Seq<char>>,
    pub items: Seq<FeedItemView>,
}

impl DeepView for FeedEnclosure {
    type V = FeedEnclosureView;

    open spec fn deep_view(&self) -> FeedEnclosureView {
        FeedEnclosureView { url: self.url@, length: self.length@ }
    }
}

impl DeepView for ItemExtension {
    type V = ItemExtensionView;

    open spec fn deep_view(&self) -> ItemExtensionView {
        ItemExtensionView {
            image: self.image.deep_view(),
            duration: self.duration.deep_view(),
        }
    }
}

impl DeepView for ItemText {
    type V = ItemTextView;

    open spec fn deep_view(&self) -> ItemTextView {
        ItemTextView {
            title: self.title.deep_view(),
            link: self.link.deep_view(),
            description: self.description.deep_view(),
            author: self.author.deep_view(),
            pub_date: self.pub_date.deep_view(),
            content: self.content.deep_view(),
        }
    }
}

impl DeepView for ItemMedia {
    type V = ItemMediaView;

    open spec fn deep_view(&self) -> ItemMediaView {
        ItemMediaView { guid: self.guid.deep_view(), enclosure: self.enclosure.deep_view() }
    }
}

impl DeepView for FeedItem {
    type V = FeedItemView;

    open spec fn deep_view(&self) -> FeedItemView {
        FeedItemView {
            text: self.text.deep_view(),
            media: self.media.deep_view(),
            extension: self.extension.deep_view(),
        }
    }
}

impl DeepView for FeedHead {
    type V = FeedHeadView;

    open spec fn deep_view(&self) -> FeedHeadView {
        FeedHeadView {
            title: self.title@,
            link: self.link@,
            description: self.description@,
            image_url: self.image_url.deep_view(),
        }
    }
}

impl DeepView for ChannelExtension {
    type V = ChannelExtensionView;

    open spec fn deep_view(&self) -> ChannelExtensionView {
        ChannelExtensionView {
            image: self.image.deep_view(),
            author: self.author.deep_view(),
            explicit: self.explicit.deep_view(),
        }
    }
}

impl DeepView for Feed {
    type V = FeedView;

    open spec fn deep_view(&self) -> FeedView {
        FeedView {
            head: self.head.deep_view(),
            extension: self.extension.deep_view(),
            categories: self.categories.deep_view(),
            items: self.items.deep_view(),
        }
    }
}

} // verus!
