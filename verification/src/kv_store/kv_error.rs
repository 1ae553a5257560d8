//! The service's error taxonomy: every failure carries an HTTP status code
//! and a short human-readable message.
use vstd::prelude::*;

verus! {

/// The mathematical value of a [`KVError`]: its status code and the
/// characters of its message.
pub struct KVErrorView {
    pub status_code: u16,
    pub message: Seq<char>,
}

impl KVErrorView {
    /// An image operation was requested on a value that is not an image.
    pub open spec fn forbidden() -> KVErrorView {
        KVErrorView { status_code: 403, message: "Operation not allowed"@ }
    }

    /// The requested key has never been written.
    pub open spec fn not_found() -> KVErrorView {
        KVErrorView { status_code: 404, message: "Key not found"@ }
    }

    /// A value could not be produced for the response.
    pub open spec fn impossible_operation() -> KVErrorView {
        KVErrorView { status_code: 500, message: "Not possible to insert value"@ }
    }

    /// The guard around the shared store could not be acquired.
    pub open spec fn unavailable() -> KVErrorView {
        KVErrorView { status_code: 500, message: "Database not reachable"@ }
    }

    /// A payload declared as an image did not decode as one.
    pub open spec fn invalid_image() -> KVErrorView {
        KVErrorView { status_code: 400, message: "Image not loadable"@ }
    }
}

/// An error surfaced to the HTTP boundary as a status code plus a message.
#[derive(Debug)]
pub struct KVError {
    status_code: u16,
    message: String,
}

impl View for KVError {
    type V = KVErrorView;

    closed spec fn view(&self) -> KVErrorView {
        KVErrorView { status_code: self.status_code, message: self.message@ }
    }
}

impl KVError {
    /// An image operation on a non-image value: 403.
    pub fn forbidden() -> (r: Self)
        ensures
            r@ == KVErrorView::forbidden(),
    {
        KVError { status_code: 403, message: "Operation not allowed".to_owned() }
    }

    /// A read of an absent key: 404.
    pub fn not_found() -> (r: Self)
        ensures
            r@ == KVErrorView::not_found(),
    {
        KVError { status_code: 404, message: "Key not found".to_owned() }
    }

    /// A response value could not be produced: 500.
    pub fn impossible_operation() -> (r: Self)
        ensures
            r@ == KVErrorView::impossible_operation(),
    {
        KVError { status_code: 500, message: "Not possible to insert value".to_owned() }
    }

    /// The store's guard could not be acquired: 500.
    pub fn unavailable() -> (r: Self)
        ensures
            r@ == KVErrorView::unavailable(),
    {
        KVError { status_code: 500, message: "Database not reachable".to_owned() }
    }

    /// The error reported when a payload declared as an image does not
    /// decode; consumes the decoder's error: 400.
    pub fn from(_err: image::ImageError) -> (r: Self)
        ensures
            r@ == KVErrorView::invalid_image(),
    {
        KVError { status_code: 400, message: "Image not loadable".to_owned() }
    }

    /// The HTTP status this error maps to.
    pub fn status_code(&self) -> (c: u16)
        ensures
            c == self@.status_code,
    {
        self.status_code
    }

    /// The human-readable message sent with the status.
    pub fn message(&self) -> (m: &str)
        ensures
            m@ == self@.message,
    {
        self.message.as_str()
    }
}

} // verus!
