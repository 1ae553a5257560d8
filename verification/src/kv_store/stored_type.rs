//! Stored values: a tagged union of a decoded bitmap or opaque bytes with
//! their declared content type, and the classification that builds one from
//! a payload.
use vstd::prelude::*;
use vstd::string::StrSliceExecFns;

use crate::kv_store::image_ops::{clone_image, image_from_bytes, load_image};
use crate::kv_store::kv_error::{KVError, KVErrorView};

verus! {

/// The mathematical value of a stored entry: either a decoded bitmap, or the
/// characters of the declared content type with the raw bytes.
pub enum StoredView {
    Image { img: image::DynamicImage },
    Other { content_type: Seq<char>, content: Seq<u8> },
}

/// A value held by the store: a decoded bitmap, or opaque bytes tagged with
/// their declared content type.
#[derive(Debug)]
pub enum StoredType {
    Image(image::DynamicImage),
    Other((String, Vec<u8>)),
}

impl View for StoredType {
    type V = StoredView;

    open spec fn view(&self) -> StoredView {
        match self {
            StoredType::Image(img) => StoredView::Image { img: *img },
            StoredType::Other(pair) => (StoredView::Other {
                content_type: pair.0@,
                content: pair.1@,
            }),
        }
    }
}

impl Clone for StoredType {
    /// The copy holds the same bitmap, or the same bytes under the same
    /// declared content type.
    fn clone(&self) -> (r: Self)
        ensures
            r@ == self@,
    {
        match self {
            StoredType::Image(img) => StoredType::Image(clone_image(img)),
            StoredType::Other(pair) => {
                let content_type = pair.0.clone();
                let content = pair.1.clone();
                proof {
                    assert(content@ =~= pair.1@);
                }
                StoredType::Other((content_type, content))
            },
        }
    }
}

/// Whether a declared MIME type claims an image: it begins with `"image/"`.
pub open spec fn spec_is_image_type(content_type: Seq<char>) -> bool {
    content_type.len() >= 6 && content_type.subrange(0, 6) == "image/"@
}

/// Decide whether a declared content type claims an image.
pub fn is_image_content_type(content_type: &str) -> (b: bool)
    ensures
        b == spec_is_image_type(content_type@),
{
    proof {
        reveal_strlit("image/");
    }
    let n = content_type.unicode_len();
    if n < 6 {
        return false;
    }
    let b = content_type.get_char(0) == 'i' && content_type.get_char(1) == 'm'
        && content_type.get_char(2) == 'a' && content_type.get_char(3) == 'g'
        && content_type.get_char(4) == 'e' && content_type.get_char(5) == '/';
    proof {
        let ghost prefix = content_type@.subrange(0, 6);
        if b {
            assert(prefix =~= "image/"@);
        } else if prefix == "image/"@ {
            assert(content_type@[0] == prefix[0] && content_type@[1] == prefix[1]
                && content_type@[2] == prefix[2] && content_type@[3] == prefix[3]
                && content_type@[4] == prefix[4] && content_type@[5] == prefix[5]);
            assert(false);
        }
    }
    b
}

impl StoredType {
    /// Classify a payload. A declared image type has the bytes decoded: a
    /// well-formed image is stored decoded, malformed bytes are rejected as a
    /// client error. Any other declared type is stored verbatim, and never
    /// fails.
    pub fn try_from(pair: (String, Vec<u8>)) -> (r: Result<StoredType, KVError>)
        ensures
            !spec_is_image_type(pair.0@) ==> (r matches Ok(v) && v@ == (StoredView::Other {
                content_type: pair.0@,
                content: pair.1@,
            })),
            spec_is_image_type(pair.0@) ==> match image_from_bytes(pair.1@) {
                Some(img) => (r matches Ok(v) && v@ == (StoredView::Image { img })),
                None => (r matches Err(e) && e@ == KVErrorView::invalid_image()),
            },
    {
        let (content_type, content) = pair;
        if is_image_content_type(content_type.as_str()) {
            match load_image(&content) {
                Ok(img) => Ok(StoredType::Image(img)),
                Err(err) => Err(KVError::from(err)),
            }
        } else {
            Ok(StoredType::Other((content_type, content)))
        }
    }
}

} // verus!
