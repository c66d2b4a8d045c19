//! The ways in which reconciling a user account can fail.

use vstd::pervasive::unreached;
use vstd::prelude::*;
use vstd::string::StringExecFns;

verus! {

/// The status code of an HTTP response: a number of three digits.
#[derive(Clone, Copy, Debug, PartialEq, Eq)]
pub struct StatusCode {
    code: u16,
}

impl View for StatusCode {
    type V = u16;

    closed spec fn view(&self) -> u16 {
        self.code
    }
}

impl StatusCode {
    #[verifier::type_invariant]
    spec fn three_digits(self) -> bool {
        100 <= self.code <= 999
    }

    /// The status code `code`, where `code` has three digits.
    pub fn from_u16(code: u16) -> (status: Option<StatusCode>)
        ensures
            status is Some <==> 100 <= code <= 999,
            status matches Some(accepted) ==> accepted@ == code,
    {
        if 100 <= code && code <= 999 {
            Some(StatusCode { code })
        } else {
            None
        }
    }

    /// The number of this status code.
    pub fn as_u16(&self) -> (code: u16)
        ensures
            code == self@,
            100 <= code <= 999,
    {
        proof {
            use_type_invariant(self);
        }
        self.code
    }
}

/// The text that `reqwest::StatusCode` prints for the status code `code`: the
/// number, and the reason phrase that goes with it.
pub uninterp spec fn status_text(code: u16) -> Seq<char>;

/// Renders a status code as `reqwest::StatusCode` does. It hands `code` to
/// `StatusCode::from_u16`, which accepts the numbers from 100 to 999 and no
/// others, and prints what comes back with the type's `Display`. That text
/// depends on the number alone. None of this is proved here: the contract
/// says what `reqwest` is taken to do.
#[verifier::external_body]
fn status_line(code: u16) -> (line: Option<String>)
    ensures
        line is Some <==> 100 <= code <= 999,
        line matches Some(text) ==> text@ == status_text(code),
{
    match reqwest::StatusCode::from_u16(code) {
        Ok(status) => Some(status.to_string()),
        Err(_) => None,
    }
}

/// The text `first` followed by the text `second`.
pub(crate) fn joined(first: &str, second: &str) -> (text: String)
    ensures
        text@ == first@ + second@,
{
    String::from_str(first).concat(second)
}

/// A failure of the protocol that guards deletion with a finalizer.
#[derive(Debug, PartialEq, Eq)]
pub enum FinalizerError {
    ApplyFailed(String),
    CleanupFailed(String),
    /// Adding or removing the finalizer failed in the cluster.
    AddRemove(String),
    UnnamedObject,
    InvalidFinalizer,
}

/// A failure of the finalizer protocol as contracts see it.
pub enum FinalizerErrorView {
    ApplyFailed(Seq<char>),
    CleanupFailed(Seq<char>),
    AddRemove(Seq<char>),
    UnnamedObject,
    InvalidFinalizer,
}

impl FinalizerErrorView {
    /// The text that describes the failure.
    pub open spec fn message(self) -> Seq<char> {
        match self {
            FinalizerErrorView::ApplyFailed(cause) => "Failed to apply object, error: "@ + cause,
            FinalizerErrorView::CleanupFailed(cause) => "Failed to clean up object: "@ + cause,
            FinalizerErrorView::AddRemove(cause) => cause,
            FinalizerErrorView::UnnamedObject => "Object has no name"@,
            FinalizerErrorView::InvalidFinalizer => "Invalid finalizer"@,
        }
    }
}

impl View for FinalizerError {
    type V = FinalizerErrorView;

    open spec fn view(&self) -> FinalizerErrorView {
        match *self {
            FinalizerError::ApplyFailed(cause) => FinalizerErrorView::ApplyFailed(cause@),
            FinalizerError::CleanupFailed(cause) => FinalizerErrorView::CleanupFailed(cause@),
            FinalizerError::AddRemove(cause) => FinalizerErrorView::AddRemove(cause@),
            FinalizerError::UnnamedObject => FinalizerErrorView::UnnamedObject,
            FinalizerError::InvalidFinalizer => FinalizerErrorView::InvalidFinalizer,
        }
    }
}

impl FinalizerError {
    /// The text that describes the failure.
    pub fn message(&self) -> (text: String)
        ensures
            text@ == self@.message(),
    {
        match self {
            FinalizerError::ApplyFailed(cause) => joined(
                "Failed to apply object, error: ",
                cause.as_str(),
            ),
            FinalizerError::CleanupFailed(cause) => joined(
                "Failed to clean up object: ",
                cause.as_str(),
            ),
            FinalizerError::AddRemove(cause) => cause.clone(),
            FinalizerError::UnnamedObject => String::from_str("Object has no name"),
            FinalizerError::InvalidFinalizer => String::from_str("Invalid finalizer"),
        }
    }
}

/// What the finalizer protocol reports when one of its steps fails. The texts
/// are those of the failures that stopped the step.
#[derive(Debug, PartialEq, Eq)]
pub enum FinalizerFailure {
    /// Bringing the remote side in line with the resource failed.
    ApplyFailed(String),
    /// Cleaning up the remote side failed.
    CleanupFailed(String),
    /// The finalizer could not be put on the resource.
    AddFinalizer(String),
    /// The finalizer could not be taken off the resource.
    RemoveFinalizer(String),
    UnnamedObject,
    InvalidFinalizer,
}

/// A report of the finalizer protocol as contracts see it.
pub enum FinalizerFailureView {
    ApplyFailed(Seq<char>),
    CleanupFailed(Seq<char>),
    AddFinalizer(Seq<char>),
    RemoveFinalizer(Seq<char>),
    UnnamedObject,
    InvalidFinalizer,
}

impl FinalizerFailureView {
    /// The error that a failure of the protocol becomes.
    pub open spec fn error(self) -> ErrorView {
        ErrorView::Finalizer(
            match self {
                FinalizerFailureView::ApplyFailed(cause) => FinalizerErrorView::ApplyFailed(
                    "Failed to apply object: "@ + cause,
                ),
                FinalizerFailureView::CleanupFailed(cause) => FinalizerErrorView::CleanupFailed(
                    "Failed to apply object: "@ + cause,
                ),
                FinalizerFailureView::AddFinalizer(cause) => FinalizerErrorView::AddRemove(cause),
                FinalizerFailureView::RemoveFinalizer(cause) => FinalizerErrorView::AddRemove(
                    cause,
                ),
                FinalizerFailureView::UnnamedObject => FinalizerErrorView::UnnamedObject,
                FinalizerFailureView::InvalidFinalizer => FinalizerErrorView::InvalidFinalizer,
            },
        )
    }
}

impl View for FinalizerFailure {
    type V = FinalizerFailureView;

    open spec fn view(&self) -> FinalizerFailureView {
        match *self {
            FinalizerFailure::ApplyFailed(cause) => FinalizerFailureView::ApplyFailed(cause@),
            FinalizerFailure::CleanupFailed(cause) => FinalizerFailureView::CleanupFailed(cause@),
            FinalizerFailure::AddFinalizer(cause) => FinalizerFailureView::AddFinalizer(cause@),
            FinalizerFailure::RemoveFinalizer(cause) => FinalizerFailureView::RemoveFinalizer(
                cause@,
            ),
            FinalizerFailure::UnnamedObject => FinalizerFailureView::UnnamedObject,
            FinalizerFailure::InvalidFinalizer => FinalizerFailureView::InvalidFinalizer,
        }
    }
}

/// A failure met while reconciling a user account.
#[derive(Debug, PartialEq, Eq)]
pub enum Error {
    /// The cluster refused or failed an operation.
    K8s(String),
    /// A body could not be read as, or written to, JSON.
    Json(String),
    /// The remote service could not be reached.
    Reqwest(String),
    /// The remote service could not be reached with digest authentication.
    Diqwest(String),
    /// The remote service answered with a status that the call does not
    /// accept.
    Api { status: StatusCode, message: String },
    /// The remote service knows no such account.
    AtlasUserNotFound { user_id: String, org_id: String },
    /// The resource lacks something that its owner has to supply.
    UserInput(String),
    /// The resource has no name.
    UnnamedObject,
    Finalizer(FinalizerError),
}

/// A failure as contracts see it.
pub enum ErrorView {
    K8s(Seq<char>),
    Json(Seq<char>),
    Reqwest(Seq<char>),
    Diqwest(Seq<char>),
    Api { status: u16, message: Seq<char> },
    AtlasUserNotFound { user_id: Seq<char>, org_id: Seq<char> },
    UserInput(Seq<char>),
    UnnamedObject,
    Finalizer(FinalizerErrorView),
}

impl ErrorView {
    /// The text that describes the failure.
    pub open spec fn message(self) -> Seq<char> {
        match self {
            ErrorView::K8s(cause) => "Kubernetes reported error: "@ + cause,
            ErrorView::Json(cause) => "serde_json error: "@ + cause,
            ErrorView::Reqwest(cause) => "Reqwest error: "@ + cause,
            ErrorView::Diqwest(cause) => "Diqwest error: "@ + cause,
            ErrorView::Api { status, message } => Self::rejection(status_text(status), message),
            ErrorView::AtlasUserNotFound { user_id, org_id } => "Atlas user "@ + user_id
                + " not found in organization "@ + org_id,
            ErrorView::UserInput(text) => text,
            ErrorView::UnnamedObject => "Unnamed k8s object"@,
            ErrorView::Finalizer(failure) => failure.message(),
        }
    }

    /// The text that describes a call that the remote service turned down
    /// with a status that prints as `status` and with the explanation
    /// `message`.
    pub open spec fn rejection(status: Seq<char>, message: Seq<char>) -> Seq<char> {
        "Unexpected response from MongoDB Atlas API: "@ + status + ". Message: "@ + message + "."@
    }

    /// Whether the failure says that the remote account does not exist.
    pub open spec fn is_not_found(self) -> bool {
        self is AtlasUserNotFound
    }
}

impl View for Error {
    type V = ErrorView;

    open spec fn view(&self) -> ErrorView {
        match *self {
            Error::K8s(cause) => ErrorView::K8s(cause@),
            Error::Json(cause) => ErrorView::Json(cause@),
            Error::Reqwest(cause) => ErrorView::Reqwest(cause@),
            Error::Diqwest(cause) => ErrorView::Diqwest(cause@),
            Error::Api { status, message } => ErrorView::Api { status: status@, message: message@ },
            Error::AtlasUserNotFound { user_id, org_id } => ErrorView::AtlasUserNotFound {
                user_id: user_id@,
                org_id: org_id@,
            },
            Error::UserInput(text) => ErrorView::UserInput(text@),
            Error::UnnamedObject => ErrorView::UnnamedObject,
            Error::Finalizer(failure) => ErrorView::Finalizer(failure@),
        }
    }
}

impl DeepView for Error {
    type V = ErrorView;

    open spec fn deep_view(&self) -> ErrorView {
        self@
    }
}

/// A result as contracts see it: what it holds, by its view.
pub open spec fn outcome<T: DeepView>(result: Result<T, Error>) -> Result<T::V, ErrorView> {
    match result {
        Ok(value) => Ok(value.deep_view()),
        Err(error) => Err(error@),
    }
}

impl Error {
    /// The error that a failure of the finalizer protocol becomes.
    pub fn from(failure: FinalizerFailure) -> (error: Error)
        ensures
            error@ == failure@.error(),
    {
        match failure {
            FinalizerFailure::ApplyFailed(cause) => Error::Finalizer(
                FinalizerError::ApplyFailed(joined("Failed to apply object: ", cause.as_str())),
            ),
            FinalizerFailure::CleanupFailed(cause) => Error::Finalizer(
                FinalizerError::CleanupFailed(joined("Failed to apply object: ", cause.as_str())),
            ),
            FinalizerFailure::AddFinalizer(cause) => Error::Finalizer(
                FinalizerError::AddRemove(cause),
            ),
            FinalizerFailure::RemoveFinalizer(cause) => Error::Finalizer(
                FinalizerError::AddRemove(cause),
            ),
            FinalizerFailure::UnnamedObject => Error::Finalizer(FinalizerError::UnnamedObject),
            FinalizerFailure::InvalidFinalizer => Error::Finalizer(
                FinalizerError::InvalidFinalizer,
            ),
        }
    }

    /// Whether the failure says that the remote account does not exist.
    pub fn is_not_found(&self) -> (absent: bool)
        ensures
            absent == self@.is_not_found(),
    {
        match self {
            Error::AtlasUserNotFound { .. } => true,
            _ => false,
        }
    }

    /// The text that describes a call that the remote service turned down
    /// with a status that prints as `status` and with the explanation
    /// `message`.
    pub fn rejection(status: &str, message: &str) -> (text: String)
        ensures
            text@ == ErrorView::rejection(status@, message@),
    {
        let mut text = String::from_str("Unexpected response from MongoDB Atlas API: ");
        text.append(status);
        text.append(". Message: ");
        text.append(message);
        text.append(".");
        text
    }

    /// The text that describes the failure. A call that was turned down is
    /// described with its status as `reqwest` prints it.
    pub fn message(&self) -> (text: String)
        ensures
            text@ == self@.message(),
    {
        match self {
            Error::K8s(cause) => joined("Kubernetes reported error: ", cause.as_str()),
            Error::Json(cause) => joined("serde_json error: ", cause.as_str()),
            Error::Reqwest(cause) => joined("Reqwest error: ", cause.as_str()),
            Error::Diqwest(cause) => joined("Diqwest error: ", cause.as_str()),
            Error::Api { status, message } => match status_line(status.as_u16()) {
                Some(line) => Self::rejection(line.as_str(), message.as_str()),
                None => unreached(),
            },
            Error::AtlasUserNotFound { user_id, org_id } => {
                let mut text = String::from_str("Atlas user ");
                text.append(user_id.as_str());
                text.append(" not found in organization ");
                text.append(org_id.as_str());
                text
            },
            Error::UserInput(text) => text.clone(),
            Error::UnnamedObject => String::from_str("Unnamed k8s object"),
            Error::Finalizer(failure) => failure.message(),
        }
    }
}

} // verus!
