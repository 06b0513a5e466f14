//! Reading a feed document with the `rss` crate.
//!
//! The parser's own work is not verified here. It is named, and each function below
//! says which part of the parsed channel it hands out as plain values.

use crate::feed::{
    ChannelExtension, Feed, FeedEnclosure, FeedHead, FeedItem, FeedView, ItemExtension, ItemMedia,
    ItemText,
};
use vstd::prelude::*;

verus! {

/// `rss::Channel`, a parsed feed document. Opaque to the verifier.
#[verifier::external_type_specification]
#[verifier::external_body]
pub struct ExChannel(rss::Channel);

/// `rss::Error`, the parser's error. Opaque to the verifier.
#[verifier::external_type_specification]
#[verifier::external_body]
pub struct ExFeedError(rss::Error);

/// The feed that `rss::Channel::read_from` finds in a document, or `None` where it
/// reports an error.
pub uninterp spec fn parsed_feed(body: Seq<char>) -> Option<FeedView>;

/// What a parsed channel holds, of the elements that this library reads.
pub uninterp spec fn channel_feed(channel: rss::Channel) -> FeedView;

/// Calls `rss::Channel::read_from` on the bytes of `body`. The claim is that the
/// parser is a function of the document alone: the same text gives the same channel
/// or fails alike. The parser recurses once for each level of element nesting.
#[verifier::external_body]
pub(crate) fn read_channel(body: &str) -> (r: Result<rss::Channel, rss::Error>)
    ensures
        match r {
            Ok(channel) => parsed_feed(body@) == Some(channel_feed(channel)),
            Err(_) => parsed_feed(body@) is None,
        },
{
    rss::Channel::read_from(body.as_bytes())
}

/// Copies out `Channel::title`, `link`, `description` and the URL of `image`.
#[verifier::external_body]
pub(crate) fn channel_head(channel: &rss::Channel) -> (r: FeedHead)
    ensures
        r.deep_view() == channel_feed(*channel).head,
{
    FeedHead {
        title: channel.title().to_string(),
        link: channel.link().to_string(),
        description: channel.description().to_string(),
        image_url: channel.image().map(|image| image.url().to_string()),
    }
}

/// Copies out `Channel::itunes_ext`: its `image`, `author` and `explicit`.
#[verifier::external_body]
pub(crate) fn channel_extension(channel: &rss::Channel) -> (r: Option<ChannelExtension>)
    ensures
        r.deep_view() == channel_feed(*channel).extension,
{
    channel.itunes_ext().map(
        |ext|
            ChannelExtension {
                image: ext.image().map(String::from),
                author: ext.author().map(String::from),
                explicit: ext.explicit().map(String::from),
            },
    )
}

/// Copies out the `name` of each of `Channel::categories`, in order.
#[verifier::external_body]
pub(crate) fn channel_categories(channel: &rss::Channel) -> (r: Vec<String>)
    ensures
        r.deep_view() == channel_feed(*channel).categories,
{
    channel.categories().iter().map(|category| category.name().to_string()).collect()
}

/// The length of `Channel::items`.
#[verifier::external_body]
pub(crate) fn item_count(channel: &rss::Channel) -> (r: usize)
    ensures
        r == channel_feed(*channel).items.len(),
{
    channel.items().len()
}

/// Copies out the text elements of the item at `index` of `Channel::items`.
#[verifier::external_body]
pub(crate) fn item_text(channel: &rss::Channel, index: usize) -> (r: ItemText)
    requires
        index < channel_feed(*channel).items.len(),
    ensures
        r.deep_view() == channel_feed(*channel).items[index as int].text,
{
    let item = &channel.items()[index];
    ItemText {
        title: item.title().map(String::from),
        link: item.link().map(String::from),
        description: item.description().map(String::from),
        author: item.author().map(String::from),
        pub_date: item.pub_date().map(String::from),
        content: item.content().map(String::from),
    }
}

/// Copies out `Item::guid` (its value) and `Item::enclosure` (its URL and length) of
/// the item at `index` of `Channel::items`.
#[verifier::external_body]
pub(crate) fn item_media(channel: &rss::Channel, index: usize) -> (r: ItemMedia)
    requires
        index < channel_feed(*channel).items.len(),
    ensures
        r.deep_view() == channel_feed(*channel).items[index as int].media,
{
    let item = &channel.items()[index];
    ItemMedia {
        guid: item.guid().map(|guid| guid.value().to_string()),
        enclosure: item.enclosure().map(
            |e| FeedEnclosure { url: e.url().to_string(), length: e.length().to_string() },
        ),
    }
}

/// Copies out `Item::itunes_ext` (its `image` and `duration`) of the item at `index`
/// of `Channel::items`.
#[verifier::external_body]
pub(crate) fn item_extension(channel: &rss::Channel, index: usize) -> (r: Option<ItemExtension>)
    requires
        index < channel_feed(*channel).items.len(),
    ensures
        r.deep_view() == channel_feed(*channel).items[index as int].extension,
{
    channel.items()[index].itunes_ext().map(
        |ext|
            ItemExtension {
                image: ext.image().map(String::from),
                duration: ext.duration().map(String::from),
            },
    )
}

/// Reads a feed document into plain values: `Some` of the feed that the parser finds,
/// `None` where the parser reports an error.
pub fn read_feed(body: &str) -> (r: Option<Feed>)
    ensures
        r.deep_view() == parsed_feed(body@),
{
    match read_channel(body) {
        Err(_) => None,
        Ok(channel) => {
            let count = item_count(&channel);
            let mut items: Vec<FeedItem> = Vec::new();
            let mut i: usize = 0;
            while i < count
                invariant
                    i <= count,
                    count == channel_feed(channel).items.len(),
                    items@.len() == i,
                    forall|k: int|
                        0 <= k < i ==> (#[trigger] items@[k]).deep_view() == channel_feed(
                            channel,
                        ).items[k],
                decreases count - i,
            {
                items.push(
                    FeedItem {
                        text: item_text(&channel, i),
                        media: item_media(&channel, i),
                        extension: item_extension(&channel, i),
                    },
                );
                i += 1;
            }
            let feed = Feed {
                head: channel_head(&channel),
                extension: channel_extension(&channel),
                categories: channel_categories(&channel),
                items,
            };
            assert(feed.items.deep_view() =~= channel_feed(channel).items);
            Some(feed)
        },
    }
}

} // verus!
