//! The key-value service: error taxonomy, stored values, the database, and
//! the request-handling cores. Each core takes plain values from the HTTP
//! layer and returns the response payload or a typed error.
use vstd::prelude::*;

use crate::kv_store::database::KVDatabase;
use crate::kv_store::image_ops::{
    encode_png, grayscale_image, grayscale_of, image_from_bytes, png_bytes_of, thumbnail_image,
    thumbnail_of,
};
use crate::kv_store::kv_error::{KVError, KVErrorView};
use crate::kv_store::stored_type::{spec_is_image_type, StoredType, StoredView};
use crate::AppState;

pub mod database;
pub mod image_ops;
pub mod kv_error;
pub mod stored_type;

verus! {

/// Store a payload under `key`. A payload declared as an image is decoded
/// and stored as a bitmap; malformed image bytes are rejected and leave the
/// store untouched. Any other payload is stored verbatim with its declared
/// content type. On success the body of the reply is `"OK"`.
pub fn post_kv<T: KVDatabase>(
    state: &mut AppState<T>,
    key: String,
    content_type: String,
    data: Vec<u8>,
) -> (r: Result<String, KVError>)
    ensures
        r matches Ok(msg) ==> ({
            &&& msg@ == "OK"@
            &&& spec_is_image_type(content_type@) ==> (image_from_bytes(data@) matches Some(img)
                && final (state).db.model() == old(state).db.model().insert(
                key@,
                (StoredView::Image { img }),
            ))
            &&& !spec_is_image_type(content_type@) ==> final (state).db.model() == old(
                state,
            ).db.model().insert(
                key@,
                (StoredView::Other { content_type: content_type@, content: data@ }),
            )
        }),
        r matches Err(e) ==> ({
            &&& final (state).db.model() == old(state).db.model()
            &&& (e@ == KVErrorView::invalid_image() && spec_is_image_type(content_type@)
                && image_from_bytes(data@) is None) || (e@ == KVErrorView::unavailable() && !old(
                state,
            ).db.infallible())
        }),
        spec_is_image_type(content_type@) && image_from_bytes(data@) is None ==> (r matches Err(e)
            && e@ == KVErrorView::invalid_image()),
        old(state).db.infallible() && (spec_is_image_type(content_type@) ==> image_from_bytes(
            data@,
        ) is Some) ==> r matches Ok(_),
        final (state).db.infallible() == old(state).db.infallible(),
{
    let value = match StoredType::try_from((content_type, data)) {
        Ok(v) => v,
        Err(e) => return Err(e),
    };
    match state.db.insert(key, value) {
        Ok(_) => Ok("OK".to_owned()),
        Err(e) => Err(e),
    }
}

/// Return the value stored under `key`, or `not_found` when the key was
/// never written.
pub fn get_kv<T: KVDatabase>(state: &AppState<T>, key: String) -> (r: Result<StoredType, KVError>)
    ensures
        r matches Ok(v) ==> state.db.model().contains_key(key@) && v@ == state.db.model()[key@],
        r matches Err(e) ==> (e@ == KVErrorView::not_found() && !state.db.model().contains_key(
            key@,
        )) || (e@ == KVErrorView::unavailable() && !state.db.infallible()),
        state.db.infallible() && state.db.model().contains_key(key@) ==> (r matches Ok(v) && v@
            == state.db.model()[key@]),
        state.db.infallible() && !state.db.model().contains_key(key@) ==> (r matches Err(e) && e@
            == KVErrorView::not_found()),
{
    state.db.read(key)
}

/// Look up `key` and require the stored value to be an image: the decoded
/// bitmap when it is, `forbidden` when a non-image value is stored, and
/// `not_found` when the key was never written.
pub fn read_image<T: KVDatabase>(state: &AppState<T>, key: String) -> (r: Result<
    image::DynamicImage,
    KVError,
>)
    ensures
        r matches Ok(img) ==> state.db.model().contains_key(key@) && state.db.model()[key@] == (
        StoredView::Image { img }),
        r matches Err(e) ==> ({
            ||| e@ == KVErrorView::not_found() && !state.db.model().contains_key(key@)
            ||| e@ == KVErrorView::forbidden() && state.db.model().contains_key(key@)
                && state.db.model()[key@] is Other
            ||| e@ == KVErrorView::unavailable() && !state.db.infallible()
        }),
        state.db.infallible() && !state.db.model().contains_key(key@) ==> (r matches Err(e) && e@
            == KVErrorView::not_found()),
        state.db.infallible() && state.db.model().contains_key(key@) ==> match state.db.model()[key@] {
            StoredView::Image { img } => (r matches Ok(i) && i == img),
            StoredView::Other { .. } => (r matches Err(e) && e@ == KVErrorView::forbidden()),
        },
{
    match state.db.read(key) {
        Ok(StoredType::Image(img)) => Ok(img),
        Ok(_) => Err(KVError::forbidden()),
        Err(e) => Err(e),
    }
}

/// Serialize a bitmap as the PNG body of a response. A bitmap whose pixel
/// format cannot be written as PNG is reported as a server error.
pub fn encode_response(img: &image::DynamicImage) -> (r: Result<Vec<u8>, KVError>)
    ensures
        r matches Ok(v) ==> png_bytes_of(*img) == Some(v@),
        r matches Err(e) ==> png_bytes_of(*img) is None && e@
            == KVErrorView::impossible_operation(),
{
    match encode_png(img) {
        Ok(v) => Ok(v),
        Err(_) => Err(KVError::impossible_operation()),
    }
}

/// Serve the luminance-preserving gray rendition of the image stored under
/// `key`, re-encoded as PNG.
pub fn grayscale<T: KVDatabase>(state: &AppState<T>, key: String) -> (r: Result<Vec<u8>, KVError>)
    ensures
        r matches Ok(v) ==> ({
            &&& state.db.model().contains_key(key@)
            &&& (state.db.model()[key@] matches StoredView::Image { img } && png_bytes_of(
                grayscale_of(img),
            ) == Some(v@))
        }),
        r matches Err(e) ==> ({
            ||| e@ == KVErrorView::not_found() && !state.db.model().contains_key(key@)
            ||| e@ == KVErrorView::forbidden() && state.db.model().contains_key(key@)
                && state.db.model()[key@] is Other
            ||| e@ == KVErrorView::impossible_operation() && state.db.model().contains_key(key@)
                && (state.db.model()[key@] matches StoredView::Image { img } && png_bytes_of(
                grayscale_of(img),
            ) is None)
            ||| e@ == KVErrorView::unavailable() && !state.db.infallible()
        }),
        state.db.infallible() && !state.db.model().contains_key(key@) ==> (r matches Err(e) && e@
            == KVErrorView::not_found()),
        state.db.infallible() && state.db.model().contains_key(key@) ==> match state.db.model()[key@] {
            StoredView::Image { img } => match png_bytes_of(grayscale_of(img)) {
                Some(body) => (r matches Ok(v) && v@ == body),
                None => (r matches Err(e) && e@ == KVErrorView::impossible_operation()),
            },
            StoredView::Other { .. } => (r matches Err(e) && e@ == KVErrorView::forbidden()),
        },
{
    let img = match read_image(state, key) {
        Ok(img) => img,
        Err(e) => return Err(e),
    };
    let gray = grayscale_image(&img);
    encode_response(&gray)
}

/// Serve the image stored under `key` resized to fit within a 100 x 100
/// bounding box with its aspect ratio kept, re-encoded as PNG.
pub fn thumbnail<T: KVDatabase>(state: &AppState<T>, key: String) -> (r: Result<Vec<u8>, KVError>)
    ensures
        r matches Ok(v) ==> ({
            &&& state.db.model().contains_key(key@)
            &&& (state.db.model()[key@] matches StoredView::Image { img } && png_bytes_of(
                thumbnail_of(img, 100, 100),
            ) == Some(v@))
        }),
        r matches Err(e) ==> ({
            ||| e@ == KVErrorView::not_found() && !state.db.model().contains_key(key@)
            ||| e@ == KVErrorView::forbidden() && state.db.model().contains_key(key@)
                && state.db.model()[key@] is Other
            ||| e@ == KVErrorView::impossible_operation() && state.db.model().contains_key(key@)
                && (state.db.model()[key@] matches StoredView::Image { img } && png_bytes_of(
                thumbnail_of(img, 100, 100),
            ) is None)
            ||| e@ == KVErrorView::unavailable() && !state.db.infallible()
        }),
        state.db.infallible() && !state.db.model().contains_key(key@) ==> (r matches Err(e) && e@
            == KVErrorView::not_found()),
        state.db.infallible() && state.db.model().contains_key(key@) ==> match state.db.model()[key@] {
            StoredView::Image { img } => match png_bytes_of(thumbnail_of(img, 100, 100)) {
                Some(body) => (r matches Ok(v) && v@ == body),
                None => (r matches Err(e) && e@ == KVErrorView::impossible_operation()),
            },
            StoredView::Other { .. } => (r matches Err(e) && e@ == KVErrorView::forbidden()),
        },
{
    let img = match read_image(state, key) {
        Ok(img) => img,
        Err(e) => return Err(e),
    };
    let thumb = thumbnail_image(&img, 100, 100);
    encode_response(&thumb)
}

} // verus!
