//! Decoding downloaded thumbnail bytes and storing them on a result item.
//! The byte-to-pixel decoding itself is the image crate's work; what is
//! done with the decoded image is verified.

use vstd::prelude::*;

use crate::item::{ResultItem, Thumb, ThumbImage};
use crate::store::ResultStore;

verus! {

/// Every item with its unrequested thumbnail URL moved to `Pending`.
pub open spec fn mark_all_requested(items: Seq<ResultItem>) -> Seq<ResultItem> {
    Seq::new(
        items.len(),
        |i: int|
            match items[i].spec_thumb_url() {
                Some(u) => items[i].with_thumb(Thumb::Pending { url: u }),
                None => items[i],
            },
    )
}

/// The downloads a fresh result list calls for: each item's position and
/// URL, in list order, for exactly the items that carry an unrequested
/// thumbnail URL.
pub open spec fn pending_requests(items: Seq<ResultItem>) -> Seq<(int, Seq<char>)>
    decreases items.len(),
{
    if items.len() == 0 {
        Seq::empty()
    } else {
        let head = pending_requests(items.drop_last());
        match items.last().spec_thumb_url() {
            Some(u) => head.push((items.len() - 1, u@)),
            None => head,
        }
    }
}

/// Marks every item that still has an unrequested thumbnail URL as
/// pending and hands back the downloads to start: each such item's index
/// with its URL, in list order.
pub fn thumbnail_requests(store: &mut ResultStore) -> (r: Vec<(usize, String)>)
    requires
        old(store).wf(),
    ensures
        final(store).wf(),
        final(store)@.sel == old(store)@.sel,
        final(store)@.items == mark_all_requested(old(store)@.items),
        r@.len() == pending_requests(old(store)@.items).len(),
        forall|j: int|
            0 <= j < r@.len() ==> (#[trigger] r@[j]).0 as int == pending_requests(
                old(store)@.items,
            )[j].0 && r@[j].1@ == pending_requests(old(store)@.items)[j].1,
{
    let ghost orig = old(store)@.items;
    let mut requests: Vec<(usize, String)> = Vec::new();
    let len = store.len();
    let mut index: usize = 0;
    while index < len
        invariant
            store.wf(),
            len == orig.len(),
            index <= len,
            store@.sel == old(store)@.sel,
            store@.items =~= Seq::new(
                orig.len(),
                |k: int| if k < index { mark_all_requested(orig)[k] } else { orig[k] },
            ),
            requests@.len() == pending_requests(orig.take(index as int)).len(),
            forall|j: int|
                0 <= j < requests@.len() ==> (#[trigger] requests@[j]).0 as int
                    == pending_requests(orig.take(index as int))[j].0 && requests@[j].1@
                    == pending_requests(orig.take(index as int))[j].1,
        decreases len - index,
    {
        proof {
            assert(orig.take(index + 1).drop_last() =~= orig.take(index as int));
            assert(orig.take(index + 1).last() == orig[index as int]);
        }
        let url = store.request_thumbnail(index);
        match url {
            Some(u) => {
                requests.push((index, u));
            },
            None => {},
        }
        index = index + 1;
    }
    proof {
        assert(orig.take(len as int) =~= orig);
        assert(store@.items =~= mark_all_requested(orig));
    }
    requests
}

/// What decoding a byte string yields: the packed red-green-blue pixels
/// with the width and height, or nothing when the bytes are not an image.
/// The result is a function of the bytes alone.
pub uninterp spec fn decoded_image(bytes: Seq<u8>) -> Option<(Seq<u8>, nat, nat)>;

/// Relies on `image::load_from_memory`: guesses the format from the bytes
/// and decodes them, a deterministic function of the bytes; and on
/// `DynamicImage::to_rgb8`, whose raw buffer holds three bytes per pixel.
#[verifier::external_body]
fn decode_image(bytes: &[u8]) -> (r: Option<ThumbImage>)
    ensures
        match r {
            Some(img) => {
                &&& decoded_image(bytes@) == Some((img.pixels@, img.width as nat, img.height as nat))
                &&& img.wf()
            },
            None => decoded_image(bytes@) is None,
        },
{
    match image::load_from_memory(bytes) {
        Ok(img) => {
            let rgb = img.to_rgb8();
            Some(ThumbImage { width: rgb.width(), height: rgb.height(), pixels: rgb.into_raw() })
        },
        Err(_) => None,
    }
}

/// Decodes downloaded bytes and stores the image on the item at `index`.
/// Nothing changes — and `false` comes back — when the bytes do not
/// decode, the index is stale, or the item's thumbnail is already
/// resolved.
pub fn resolve_thumbnail(store: &mut ResultStore, index: usize, bytes: &[u8]) -> (r: bool)
    requires
        old(store).wf(),
    ensures
        final(store).wf(),
        final(store)@.sel == old(store)@.sel,
        match decoded_image(bytes@) {
            None => !r && final(store)@ == old(store)@,
            Some(d) => if index >= old(store)@.items.len() {
                !r && final(store)@ == old(store)@
            } else {
                let it = old(store)@.items[index as int];
                &&& r == it.accepts_image()
                &&& r ==> exists|img: ThumbImage|
                    {
                        &&& (img.pixels@, img.width as nat, img.height as nat) == d
                        &&& img.wf()
                        &&& final(store)@.items == old(store)@.items.update(
                            index as int,
                            it.with_thumb(Thumb::Resolved { image: img }),
                        )
                    }
                &&& !r ==> final(store)@ == old(store)@
            },
        },
{
    match decode_image(bytes) {
        Some(img) => {
            let ghost witness = img;
            let stored = store.set_thumbnail(index, img);
            proof {
                if stored {
                    let it = old(store)@.items[index as int];
                    assert(store@.items == old(store)@.items.update(
                        index as int,
                        it.with_thumb(Thumb::Resolved { image: witness }),
                    ));
                    assert((witness.pixels@, witness.width as nat, witness.height as nat)
                        == decoded_image(bytes@).unwrap());
                }
            }
            stored
        },
        None => false,
    }
}

} // verus!
