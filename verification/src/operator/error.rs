//! The failures that a reconcile can end in.

use vstd::prelude::*;

use crate::atlas;
use crate::atlas::error::joined;

verus! {

/// A failure of one reconcile.
#[allow(inconsistent_fields)]
#[derive(Debug, PartialEq, Eq)]
pub enum Error {
    /// The cluster refused or failed an operation.
    KubeError { source: String },
    /// The resource is not one that can be reconciled.
    UserInputError(String),
    /// Dealing with the remote account failed.
    Atlas { source: atlas::error::Error },
}

/// A failure of a reconcile as contracts see it.
#[allow(inconsistent_fields)]
pub enum ErrorView {
    KubeError { source: Seq<char> },
    UserInputError(Seq<char>),
    Atlas { source: atlas::error::ErrorView },
}

impl ErrorView {
    /// The text that describes the failure.
    pub open spec fn message(self) -> Seq<char> {
        match self {
            ErrorView::KubeError { source } => "Kubernetes reported error: "@ + source,
            ErrorView::UserInputError(text) => "Invalid AtlasUser CRD: "@ + text,
            ErrorView::Atlas { source } => "Atlas reported error: "@ + source.message(),
        }
    }
}

impl View for Error {
    type V = ErrorView;

    open spec fn view(&self) -> ErrorView {
        match *self {
            Error::KubeError { source } => ErrorView::KubeError { source: source@ },
            Error::UserInputError(text) => ErrorView::UserInputError(text@),
            Error::Atlas { source } => ErrorView::Atlas { source: source@ },
        }
    }
}

impl Error {
    /// The text that describes the failure.
    pub fn message(&self) -> (text: String)
        ensures
            text@ == self@.message(),
    {
        match self {
            Error::KubeError { source } => joined("Kubernetes reported error: ", source.as_str()),
            Error::UserInputError(text) => joined("Invalid AtlasUser CRD: ", text.as_str()),
            Error::Atlas { source } => {
                let cause = source.message();
                joined("Atlas reported error: ", cause.as_str())
            },
        }
    }
}

/// A result as contracts see it: what it holds, by its view.
pub open spec fn outcome<T: DeepView>(result: Result<T, Error>) -> Result<T::V, ErrorView> {
    match result {
        Ok(value) => Ok(value.deep_view()),
        Err(error) => Err(error@),
    }
}

} // verus!
