//! Search result items and their thumbnail lifecycle.

use vstd::prelude::*;

verus! {

/// A decoded thumbnail: tightly packed rows of red, green, blue bytes.
#[derive(Debug, PartialEq)]
pub struct ThumbImage {
    pub width: u32,
    pub height: u32,
    pub pixels: Vec<u8>,
}

impl ThumbImage {
    /// The pixel buffer holds exactly three bytes per pixel.
    pub open spec fn wf(self) -> bool {
        self.pixels@.len() == 3 * (self.width as int) * (self.height as int)
    }
}

/// Lifecycle of one item's preview image. It moves forward at most once
/// per stage and never reverts.
#[derive(Debug, PartialEq)]
#[allow(inconsistent_fields)]
pub enum Thumb {
    /// No download has been asked for yet; the provider may have given a URL.
    NotRequested { url: Option<String> },
    /// A download of `url` is under way.
    Pending { url: String },
    /// The downloaded image, decoded.
    Resolved { image: ThumbImage },
}

impl Thumb {
    /// Position in the lifecycle; transitions never lower it.
    pub open spec fn rank(self) -> int {
        match self {
            Thumb::NotRequested { .. } => 0,
            Thumb::Pending { .. } => 1,
            Thumb::Resolved { .. } => 2,
        }
    }

    /// The URL a download could start from: present only while none has
    /// been asked for.
    pub open spec fn unrequested_url(self) -> Option<String> {
        match self {
            Thumb::NotRequested { url } => url,
            _ => None,
        }
    }
}

/// One entry of a provider response. `Unknown` keeps the raw text of an
/// entry the provider sent in a shape this client does not know.
#[derive(Debug, PartialEq)]
pub enum ResultItem {
    Video { title: String, author: String, id: String, thumb: Thumb },
    Playlist { title: String, author: String, thumb: Thumb },
    Channel { name: String, description: String, thumb: Thumb },
    Unknown { raw: String },
}

impl ResultItem {
    /// The text a list row shows for this item.
    pub open spec fn spec_title(self) -> Seq<char> {
        match self {
            ResultItem::Video { title, .. } => title@,
            ResultItem::Playlist { title, .. } => title@,
            ResultItem::Channel { name, .. } => name@,
            ResultItem::Unknown { raw } => raw@,
        }
    }

    /// The thumbnail state, if the variant carries one.
    pub open spec fn spec_thumb(self) -> Option<Thumb> {
        match self {
            ResultItem::Video { thumb, .. } => Some(thumb),
            ResultItem::Playlist { thumb, .. } => Some(thumb),
            ResultItem::Channel { thumb, .. } => Some(thumb),
            ResultItem::Unknown { .. } => None,
        }
    }

    /// The same item with its thumbnail state replaced; `Unknown` is unchanged.
    pub open spec fn with_thumb(self, t: Thumb) -> ResultItem {
        match self {
            ResultItem::Video { title, author, id, .. } => (ResultItem::Video {
                title,
                author,
                id,
                thumb: t,
            }),
            ResultItem::Playlist { title, author, .. } => (ResultItem::Playlist {
                title,
                author,
                thumb: t,
            }),
            ResultItem::Channel { name, description, .. } => (ResultItem::Channel {
                name,
                description,
                thumb: t,
            }),
            ResultItem::Unknown { raw } => (ResultItem::Unknown { raw }),
        }
    }

    /// True when a decoded image may still be stored for this item.
    pub open spec fn accepts_image(self) -> bool {
        self.spec_thumb() matches Some(t) && t.rank() < 2
    }

    /// The URL a thumbnail download for this item could start from.
    pub open spec fn spec_thumb_url(self) -> Option<String> {
        match self.spec_thumb() {
            Some(t) => t.unrequested_url(),
            None => None,
        }
    }

    pub fn display_title(&self) -> (r: &String)
        ensures
            r@ == self.spec_title(),
    {
        match self {
            ResultItem::Video { title, .. } => title,
            ResultItem::Playlist { title, .. } => title,
            ResultItem::Channel { name, .. } => name,
            ResultItem::Unknown { raw } => raw,
        }
    }

    /// Stores a decoded image, provided the item has a thumbnail slot that
    /// is not already resolved. Returns whether the image was stored.
    pub fn resolve_thumb(&mut self, image: ThumbImage) -> (r: bool)
        ensures
            r == old(self).accepts_image(),
            r ==> *final(self) == old(self).with_thumb(Thumb::Resolved { image }),
            !r ==> *final(self) == *old(self),
    {
        match self {
            ResultItem::Video { thumb, .. } => Self::store_image(thumb, image),
            ResultItem::Playlist { thumb, .. } => Self::store_image(thumb, image),
            ResultItem::Channel { thumb, .. } => Self::store_image(thumb, image),
            ResultItem::Unknown { .. } => false,
        }
    }

    /// If the thumbnail has a URL and no download was asked for yet, moves
    /// it to `Pending` and hands the URL back for the caller to fetch.
    pub fn request_thumb(&mut self) -> (r: Option<String>)
        ensures
            match old(self).spec_thumb_url() {
                Some(u) => {
                    &&& r matches Some(ru) && ru@ == u@
                    &&& *final(self) == old(self).with_thumb(Thumb::Pending { url: u })
                },
                None => r is None && *final(self) == *old(self),
            },
    {
        match self {
            ResultItem::Video { thumb, .. } => Self::start_request(thumb),
            ResultItem::Playlist { thumb, .. } => Self::start_request(thumb),
            ResultItem::Channel { thumb, .. } => Self::start_request(thumb),
            ResultItem::Unknown { .. } => None,
        }
    }

    fn store_image(thumb: &mut Thumb, image: ThumbImage) -> (r: bool)
        ensures
            r == (old(thumb).rank() < 2),
            r ==> *final(thumb) == (Thumb::Resolved { image }),
            !r ==> *final(thumb) == *old(thumb),
    {
        match thumb {
            Thumb::Resolved { .. } => false,
            _ => {
                *thumb = Thumb::Resolved { image };
                true
            },
        }
    }

    fn start_request(thumb: &mut Thumb) -> (r: Option<String>)
        ensures
            match old(thumb).unrequested_url() {
                Some(u) => {
                    &&& r matches Some(ru) && ru@ == u@
                    &&& *final(thumb) == (Thumb::Pending { url: u })
                },
                None => r is None && *final(thumb) == *old(thumb),
            },
    {
        match thumb {
            Thumb::NotRequested { url: Some(u) } => {
                let kept = u.clone();
                let handed = u.clone();
                *thumb = Thumb::Pending { url: kept };
                Some(handed)
            },
            _ => None,
        }
    }
}

/// The thumbnail lifecycle only moves forward: storing a decoded image
/// never lowers the rank of an item's thumbnail state.
pub proof fn lemma_thumb_rank_monotone(item: ResultItem, image: ThumbImage)
    ensures
        item.accepts_image() ==> {
            let resolved = item.with_thumb(Thumb::Resolved { image });
            &&& resolved.spec_thumb() matches Some(t2)
            &&& item.spec_thumb() matches Some(t1) && t1.rank() <= t2.rank()
        },
{
}

} // verus!
