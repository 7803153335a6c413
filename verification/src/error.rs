//! Why a request is not carried out.

use vstd::prelude::*;

verus! {

#[derive(Clone, Debug, PartialEq)]
pub enum AppError {
    /// The request itself is at fault.
    InvalidRequest(String),
    /// The request names a context that there is none of.
    NotFound(String),
    /// The store failed, with this message.
    Lance(String),
}

/// The view of an [`AppError`].
#[verifier::ext_equal]
pub enum AppErrorView {
    InvalidRequest(Seq<char>),
    NotFound(Seq<char>),
    Lance(Seq<char>),
}

impl View for AppError {
    type V = AppErrorView;

    open spec fn view(&self) -> AppErrorView {
        match self {
            AppError::InvalidRequest(message) => AppErrorView::InvalidRequest(message@),
            AppError::NotFound(message) => AppErrorView::NotFound(message@),
            AppError::Lance(message) => AppErrorView::Lance(message@),
        }
    }
}

/// What a request for the context `name` is told when there is none.
pub open spec fn context_missing(name: Seq<char>) -> AppErrorView {
    AppErrorView::NotFound("Context '"@ + name + "' does not exist"@)
}

impl AppError {
    /// The error of a store that failed with `message`.
    pub fn from_lance(message: String) -> (error: AppError)
        ensures
            error == AppError::Lance(message),
    {
        AppError::Lance(message)
    }

    /// The error of a request for the context `name`, of which there is none.
    pub fn context_missing(name: &String) -> (error: AppError)
        ensures
            error@ == context_missing(name@),
            error matches AppError::NotFound(message) && message@ == "Context '"@ + name@
                + "' does not exist"@,
    {
        AppError::NotFound(
            "Context '".to_owned().concat(name.as_str()).concat("' does not exist"),
        )
    }
}

} // verus!
