//! The error taxonomy. Every failure is returned as a typed value, never
//! thrown; no operation recovers internally.

use vstd::prelude::*;

verus! {

/// What a client operation can fail with.
///
/// `Http` and `Io` carry the transport layer's own description and are
/// produced by the unverified shell that performs the network call; the
/// library itself produces the other three: `Json` for a malformed or
/// unexpected payload shape, `NotLoggedIn` for an authenticated call without
/// a token (decided locally, before any request), `BadStatus` for a non-2xx
/// response (carrying status and body), and `BadRoomId` for an empty room
/// identifier.
#[derive(Debug, PartialEq)]
pub enum MatrixClientError {
    Http(String),
    Io(String),
    Json,
    NotLoggedIn,
    BadStatus(u16, String),
    BadRoomId(String),
}

#[verifier::ext_equal]
pub enum MatrixClientErrorView {
    Http(Seq<char>),
    Io(Seq<char>),
    Json,
    NotLoggedIn,
    BadStatus(u16, Seq<char>),
    BadRoomId(Seq<char>),
}

impl DeepView for MatrixClientError {
    type V = MatrixClientErrorView;

    open spec fn deep_view(&self) -> MatrixClientErrorView {
        match self {
            MatrixClientError::Http(s) => MatrixClientErrorView::Http(s@),
            MatrixClientError::Io(s) => MatrixClientErrorView::Io(s@),
            MatrixClientError::Json => MatrixClientErrorView::Json,
            MatrixClientError::NotLoggedIn => MatrixClientErrorView::NotLoggedIn,
            MatrixClientError::BadStatus(st, b) => MatrixClientErrorView::BadStatus(*st, b@),
            MatrixClientError::BadRoomId(s) => MatrixClientErrorView::BadRoomId(s@),
        }
    }
}

/// The deep view of a whole `Result`, arm by arm.
pub open spec fn res_view<T: DeepView, E: DeepView>(r: Result<T, E>) -> Result<T::V, E::V> {
    match r {
        Ok(t) => Ok(t.deep_view()),
        Err(e) => Err(e.deep_view()),
    }
}

} // verus!
