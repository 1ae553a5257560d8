//! Scenarios mirroring the service's HTTP exchanges, exercised against the
//! verified request-handling cores.
use kv_service::kv_store::database::Store;
use kv_service::kv_store::stored_type::StoredType;
use kv_service::kv_store::{get_kv, grayscale, post_kv};
use kv_service::AppState;

fn sample_image() -> image::DynamicImage {
    let mut img = image::RgbImage::new(3, 2);
    img.put_pixel(0, 0, image::Rgb([255, 0, 0]));
    img.put_pixel(1, 0, image::Rgb([0, 255, 0]));
    img.put_pixel(2, 0, image::Rgb([0, 0, 255]));
    img.put_pixel(0, 1, image::Rgb([255, 255, 0]));
    img.put_pixel(1, 1, image::Rgb([0, 255, 255]));
    img.put_pixel(2, 1, image::Rgb([20, 40, 60]));
    image::DynamicImage::ImageRgb8(img)
}

fn png_bytes(img: &image::DynamicImage) -> Vec<u8> {
    let mut cursor = std::io::Cursor::new(Vec::new());
    img.write_to(&mut cursor, image::ImageOutputFormat::Png).unwrap();
    cursor.into_inner()
}

#[test]
fn basic_db_test() {
    let mut state = AppState { db: Store::new() };
    let reply = post_kv(
        &mut state,
        "test".to_string(),
        "text/plain".to_string(),
        b"Hello World".to_vec(),
    )
    .unwrap();
    assert_eq!(reply, "OK".to_string());

    let value = get_kv(&state, "test".to_string()).unwrap();
    match value {
        StoredType::Other((content_type, content)) => {
            assert_eq!(content_type, "text/plain".to_string());
            assert_eq!(String::from_utf8(content).unwrap(), "Hello World".to_string());
        }
        StoredType::Image(_) => panic!("a plain text payload must stay opaque"),
    }
}

#[test]
fn image_request() {
    let mut state = AppState { db: Store::new() };
    let original = sample_image();
    let bytes = png_bytes(&original);

    let reply = post_kv(
        &mut state,
        "crab".to_string(),
        "image/png".to_string(),
        bytes,
    )
    .unwrap();
    assert_eq!(reply, "OK".to_string());

    let value = get_kv(&state, "crab".to_string()).unwrap();
    match value {
        StoredType::Image(img) => assert_eq!(img, original),
        StoredType::Other(_) => panic!("a decodable image payload must be stored decoded"),
    }
}

#[test]
fn no_entry() {
    let state = AppState { db: Store::new() };
    let err = get_kv(&state, "crab".to_string()).unwrap_err();
    assert_eq!(err.status_code(), 404);
    assert_eq!(err.message(), "Key not found");
}

#[test]
fn grayscale_request() {
    let mut state = AppState { db: Store::new() };
    let original = sample_image();
    let bytes = png_bytes(&original);

    post_kv(&mut state, "crab".to_string(), "image/png".to_string(), bytes).unwrap();

    let body = grayscale(&state, "crab".to_string()).unwrap();
    let served = image::load_from_memory(&body).unwrap();
    assert_eq!(served, original.grayscale());
    assert_ne!(served, original);
}

#[test]
fn grayscale_faulty_request() {
    let mut state = AppState { db: Store::new() };
    post_kv(
        &mut state,
        "test".to_string(),
        "text/plain".to_string(),
        b"Hello World".to_vec(),
    )
    .unwrap();

    let err = grayscale(&state, "test".to_string()).unwrap_err();
    assert_eq!(err.status_code(), 403);
    assert_eq!(err.message(), "Operation not allowed");
}
