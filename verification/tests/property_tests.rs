//! Concrete checks of the store's laws and edge cases: round trips,
//! overwrites, classification, and each error with an input that gives it.
use kv_service::database::KeyValueStore;
use kv_service::kv_store::database::{KVDatabase, Store};
use kv_service::kv_store::stored_type::{is_image_content_type, StoredType};
use kv_service::kv_store::{encode_response, get_kv, post_kv, read_image, thumbnail};
use kv_service::AppState;

fn wide_image() -> image::DynamicImage {
    let img = image::RgbImage::from_fn(300, 200, |x, y| {
        image::Rgb([(x % 256) as u8, (y % 256) as u8, ((x + y) % 256) as u8])
    });
    image::DynamicImage::ImageRgb8(img)
}

fn png_bytes(img: &image::DynamicImage) -> Vec<u8> {
    let mut cursor = std::io::Cursor::new(Vec::new());
    img.write_to(&mut cursor, image::ImageOutputFormat::Png).unwrap();
    cursor.into_inner()
}

fn text_value(store: &Store, key: &str) -> String {
    match store.read(key.to_string()).unwrap() {
        StoredType::Other((_, content)) => String::from_utf8(content).unwrap(),
        StoredType::Image(_) => panic!("expected an opaque value"),
    }
}

#[test]
fn read_unwritten_key_fails_not_found() {
    let mut store = Store::new();
    let err = store.read("never".to_string()).unwrap_err();
    assert_eq!(err.status_code(), 404);

    store
        .insert(
            "other".to_string(),
            StoredType::Other(("text/plain".to_string(), b"x".to_vec())),
        )
        .unwrap();
    let err = store.read("never".to_string()).unwrap_err();
    assert_eq!(err.status_code(), 404);
}

#[test]
fn write_then_read_round_trip() {
    let mut store = Store::new();
    store
        .insert(
            "a".to_string(),
            StoredType::Other(("text/plain".to_string(), b"first".to_vec())),
        )
        .unwrap();
    assert_eq!(text_value(&store, "a"), "first");

    store
        .insert(
            "b".to_string(),
            StoredType::Other(("text/plain".to_string(), b"second".to_vec())),
        )
        .unwrap();
    assert_eq!(text_value(&store, "a"), "first");
    assert_eq!(text_value(&store, "b"), "second");
}

#[test]
fn overwrite_returns_latest_value() {
    let mut store = Store::new();
    store
        .insert(
            "k".to_string(),
            StoredType::Other(("text/plain".to_string(), b"v1".to_vec())),
        )
        .unwrap();
    store
        .insert(
            "k".to_string(),
            StoredType::Other(("text/plain".to_string(), b"v2".to_vec())),
        )
        .unwrap();
    assert_eq!(text_value(&store, "k"), "v2");
}

#[test]
fn text_payload_stored_verbatim() {
    let mut state = AppState { db: Store::new() };
    // Bytes that would fail any image decoder are kept untouched under a
    // text declaration.
    let payload = vec![0x89, 0x50, 0x4e, 0x47, 0x00, 0x01, 0x02];
    post_kv(
        &mut state,
        "blob".to_string(),
        "text/plain".to_string(),
        payload.clone(),
    )
    .unwrap();
    match get_kv(&state, "blob".to_string()).unwrap() {
        StoredType::Other((content_type, content)) => {
            assert_eq!(content_type, "text/plain");
            assert_eq!(content, payload);
        }
        StoredType::Image(_) => panic!("a text payload must never be decoded"),
    }
}

#[test]
fn undecodable_image_rejected_and_not_stored() {
    let mut state = AppState { db: Store::new() };
    let err = post_kv(
        &mut state,
        "bad".to_string(),
        "image/png".to_string(),
        b"not a png at all".to_vec(),
    )
    .unwrap_err();
    assert_eq!(err.status_code(), 400);
    assert_eq!(err.message(), "Image not loadable");

    let err = get_kv(&state, "bad".to_string()).unwrap_err();
    assert_eq!(err.status_code(), 404);
}

#[test]
fn classify_by_content_type_prefix() {
    assert!(is_image_content_type("image/png"));
    assert!(is_image_content_type("image/"));
    assert!(!is_image_content_type("image"));
    assert!(!is_image_content_type("text/plain"));
    assert!(!is_image_content_type("IMAGE/png"));
    assert!(!is_image_content_type(""));
}

#[test]
fn try_from_decodes_image_payload() {
    let original = wide_image();
    let stored =
        StoredType::try_from(("image/png".to_string(), png_bytes(&original))).unwrap();
    match stored {
        StoredType::Image(img) => assert_eq!(img, original),
        StoredType::Other(_) => panic!("a decodable image payload must classify as an image"),
    }
}

#[test]
fn thumbnail_fits_bounds_and_keeps_aspect() {
    let mut state = AppState { db: Store::new() };
    let original = wide_image();
    post_kv(
        &mut state,
        "wide".to_string(),
        "image/png".to_string(),
        png_bytes(&original),
    )
    .unwrap();

    let body = thumbnail(&state, "wide".to_string()).unwrap();
    let served = image::load_from_memory(&body).unwrap();
    assert_eq!(served, original.thumbnail(100, 100));
    assert!(image::GenericImageView::width(&served) <= 100);
    assert!(image::GenericImageView::height(&served) <= 100);
    // 300 x 200 scaled to fit 100 x 100 keeps the 3:2 ratio.
    assert_eq!(
        (
            image::GenericImageView::width(&served),
            image::GenericImageView::height(&served)
        ),
        (100, 67)
    );
}

#[test]
fn thumbnail_missing_key_fails_not_found() {
    let state = AppState { db: Store::new() };
    let err = thumbnail(&state, "none".to_string()).unwrap_err();
    assert_eq!(err.status_code(), 404);
}

#[test]
fn read_image_on_non_image_fails_forbidden() {
    let mut state = AppState { db: Store::new() };
    post_kv(
        &mut state,
        "note".to_string(),
        "text/plain".to_string(),
        b"plain".to_vec(),
    )
    .unwrap();
    let err = read_image(&state, "note".to_string()).unwrap_err();
    assert_eq!(err.status_code(), 403);
    let err = read_image(&state, "gone".to_string()).unwrap_err();
    assert_eq!(err.status_code(), 404);
}

#[test]
fn encode_response_round_trips_the_bitmap() {
    let original = wide_image();
    let body = encode_response(&original).unwrap();
    let served = image::load_from_memory(&body).unwrap();
    assert_eq!(served, original);
}

#[test]
fn key_value_store_get_and_set() {
    let mut store = Store::new();
    assert!(store.get_item("k".to_string()).is_none());
    store.set_item(
        "k".to_string(),
        StoredType::Other(("text/plain".to_string(), b"v".to_vec())),
    );
    match store.get_item("k".to_string()).unwrap() {
        StoredType::Other((content_type, content)) => {
            assert_eq!(content_type, "text/plain");
            assert_eq!(content, b"v".to_vec());
        }
        StoredType::Image(_) => panic!("expected the opaque value back"),
    }
}

#[test]
fn default_store_is_empty() {
    let store = Store::default();
    let err = store.read("anything".to_string()).unwrap_err();
    assert_eq!(err.status_code(), 404);
    assert_eq!(err.message(), "Key not found");
}
