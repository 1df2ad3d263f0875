use std::io::Cursor;

use image::{DynamicImage, ImageBuffer, ImageOutputFormat, Rgb};

use vidsearch::item::{ResultItem, Thumb};
use vidsearch::store::ResultStore;
use vidsearch::thumb::{resolve_thumbnail, thumbnail_requests};

fn one_channel_item() -> Vec<ResultItem> {
    vec![ResultItem::Channel {
        name: "N".to_string(),
        description: "D".to_string(),
        thumb: Thumb::NotRequested { url: Some("http://img".to_string()) },
    }]
}

fn png_bytes(width: u32, height: u32, raw: Vec<u8>) -> Vec<u8> {
    let buffer: ImageBuffer<Rgb<u8>, Vec<u8>> =
        ImageBuffer::from_raw(width, height, raw).expect("raw buffer fits");
    let img = DynamicImage::ImageRgb8(buffer);
    let mut bytes: Vec<u8> = Vec::new();
    img.write_to(&mut Cursor::new(&mut bytes), ImageOutputFormat::Png).expect("png encodes");
    bytes
}

#[test]
fn downloaded_bytes_become_the_item_thumbnail() {
    let mut store = ResultStore::new();
    store.replace(one_channel_item());
    assert!(store.request_thumbnail(0).is_some());

    let raw = vec![10, 20, 30, 40, 50, 60];
    let bytes = png_bytes(2, 1, raw.clone());
    // the stored pixels must come from decoding, not from the input bytes
    assert_ne!(bytes, raw);

    assert!(resolve_thumbnail(&mut store, 0, &bytes));

    store.select_next();
    match store.selected().unwrap() {
        ResultItem::Channel { thumb: Thumb::Resolved { image }, .. } => {
            assert_eq!(image.width, 2);
            assert_eq!(image.height, 1);
            assert_eq!(image.pixels, raw);
        }
        _ => panic!("thumbnail should be resolved"),
    }
}

#[test]
fn thumbnail_requests_collects_urls_in_order() {
    let mut store = ResultStore::new();
    store.replace(vec![
        ResultItem::Video {
            title: "V".to_string(),
            author: "A".to_string(),
            id: "v1".to_string(),
            thumb: Thumb::NotRequested { url: Some("http://one".to_string()) },
        },
        ResultItem::Unknown { raw: "raw".to_string() },
        ResultItem::Channel {
            name: "N".to_string(),
            description: "D".to_string(),
            thumb: Thumb::NotRequested { url: Some("http://two".to_string()) },
        },
        ResultItem::Playlist {
            title: "P".to_string(),
            author: "A".to_string(),
            thumb: Thumb::NotRequested { url: None },
        },
    ]);

    let requests = thumbnail_requests(&mut store);
    assert_eq!(
        requests,
        vec![(0, "http://one".to_string()), (2, "http://two".to_string())]
    );

    // every URL was taken; a second sweep finds nothing left
    assert_eq!(thumbnail_requests(&mut store), Vec::new());
    match store.get(0).unwrap() {
        ResultItem::Video { thumb, .. } => {
            assert_eq!(thumb, &Thumb::Pending { url: "http://one".to_string() });
        }
        _ => panic!("unexpected item"),
    }
}

#[test]
fn bytes_that_are_no_image_change_nothing() {
    let mut store = ResultStore::new();
    store.replace(one_channel_item());
    assert!(!resolve_thumbnail(&mut store, 0, b"not an image"));
    store.select_next();
    match store.selected().unwrap() {
        ResultItem::Channel { thumb, .. } => {
            assert_eq!(thumb, &Thumb::NotRequested { url: Some("http://img".to_string()) });
        }
        _ => panic!("unexpected item"),
    }
}

#[test]
fn late_download_for_a_replaced_list_is_dropped() {
    let mut store = ResultStore::new();
    store.replace(one_channel_item());
    // the list shrank (here: to one item) before the download finished
    let bytes = png_bytes(1, 1, vec![1, 2, 3]);
    assert!(!resolve_thumbnail(&mut store, 5, &bytes));
    assert_eq!(store.len(), 1);
}

#[test]
fn resolved_thumbnail_is_not_overwritten() {
    let mut store = ResultStore::new();
    store.replace(one_channel_item());
    let first = png_bytes(1, 1, vec![7, 8, 9]);
    assert!(resolve_thumbnail(&mut store, 0, &first));
    let second = png_bytes(1, 1, vec![0, 0, 0]);
    assert!(!resolve_thumbnail(&mut store, 0, &second));

    store.select_next();
    match store.selected().unwrap() {
        ResultItem::Channel { thumb: Thumb::Resolved { image }, .. } => {
            assert_eq!(image.pixels, vec![7, 8, 9]);
        }
        _ => panic!("thumbnail should be resolved"),
    }
}
