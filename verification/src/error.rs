//! The closed set of failure kinds a network call can produce.

use vstd::prelude::*;

verus! {

/// What a failed call amounts to.  Transport and deserialization failures
/// collapse to [`AppError::Unknown`]; structured API errors keep their kind,
/// and an unprocessable entity keeps the server's message list.
#[derive(Clone, Debug, PartialEq, Eq)]
pub enum AppError {
    Unauthorized,
    Forbidden,
    NotFound,
    UnprocessableEntity(Vec<String>),
    Unknown,
}

/// The mathematical value of an [`AppError`]: its kind, with the messages of
/// an unprocessable entity as character sequences.
#[verifier::ext_equal]
pub enum AppErrorView {
    Unauthorized,
    Forbidden,
    NotFound,
    UnprocessableEntity(Seq<Seq<char>>),
    Unknown,
}

impl View for AppError {
    type V = AppErrorView;

    open spec fn view(&self) -> AppErrorView {
        match self {
            AppError::Unauthorized => AppErrorView::Unauthorized,
            AppError::Forbidden => AppErrorView::Forbidden,
            AppError::NotFound => AppErrorView::NotFound,
            AppError::UnprocessableEntity(msgs) => AppErrorView::UnprocessableEntity(
                msgs.deep_view(),
            ),
            AppError::Unknown => AppErrorView::Unknown,
        }
    }
}

} // verus!
