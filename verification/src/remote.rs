//! Failures of a remote call, as the client sees them.

use server_fn::error::NoCustomError;
use server_fn::ServerFnError;
use vstd::prelude::*;

verus! {

/// Why a call of a server function failed. The variants are those of
/// `server_fn::ServerFnError` without a custom error type; each carries the
/// message that the framework attached.
#[derive(Clone, Debug, PartialEq, Eq)]
pub enum RemoteError {
    /// An application-defined error; this application defines none.
    WrappedServerError,
    /// The server function could not be registered.
    Registration(String),
    /// The request did not reach the server.
    Request(String),
    /// The server could not build its response.
    Response(String),
    /// The function itself failed on the server.
    ServerError(String),
    /// The client could not decode the server's response.
    Deserialization(String),
    /// The client could not encode the arguments.
    Serialization(String),
    /// The server could not decode the arguments.
    Args(String),
    /// An argument was missing.
    MissingArg(String),
}

/// The mathematical value of a [`RemoteError`]: the variant, with its message
/// as a sequence of characters.
pub enum RemoteErrorView {
    WrappedServerError,
    Registration(Seq<char>),
    Request(Seq<char>),
    Response(Seq<char>),
    ServerError(Seq<char>),
    Deserialization(Seq<char>),
    Serialization(Seq<char>),
    Args(Seq<char>),
    MissingArg(Seq<char>),
}

impl View for RemoteError {
    type V = RemoteErrorView;

    open spec fn view(&self) -> RemoteErrorView {
        match self {
            RemoteError::WrappedServerError => RemoteErrorView::WrappedServerError,
            RemoteError::Registration(m) => RemoteErrorView::Registration(m@),
            RemoteError::Request(m) => RemoteErrorView::Request(m@),
            RemoteError::Response(m) => RemoteErrorView::Response(m@),
            RemoteError::ServerError(m) => RemoteErrorView::ServerError(m@),
            RemoteError::Deserialization(m) => RemoteErrorView::Deserialization(m@),
            RemoteError::Serialization(m) => RemoteErrorView::Serialization(m@),
            RemoteError::Args(m) => RemoteErrorView::Args(m@),
            RemoteError::MissingArg(m) => RemoteErrorView::MissingArg(m@),
        }
    }
}

/// The mathematical value of the outcome of a remote call.
pub open spec fn outcome_view(outcome: Result<String, RemoteError>) -> Result<
    Seq<char>,
    RemoteErrorView,
> {
    match outcome {
        Ok(text) => Ok(text@),
        Err(err) => Err(err@),
    }
}

/// The text that `server_fn::ServerFnError` gives for an error under the
/// `{:?}` format.
pub uninterp spec fn debug_text(err: RemoteErrorView) -> Seq<char>;

impl RemoteError {
    /// Formats the error as `server_fn::ServerFnError` does under `{:?}`.
    ///
    /// Trusted: the body rebuilds the framework's own error value, variant for
    /// variant, and lets its derived `Debug` write the text. The contract only
    /// gives that text a name; it claims nothing about what the text holds.
    #[verifier::external_body]
    pub(crate) fn debug_string(&self) -> (text: String)
        ensures
            text@ == debug_text(self@),
    {
        let outside: ServerFnError = match self {
            Self::WrappedServerError => ServerFnError::WrappedServerError(NoCustomError),
            Self::Registration(m) => ServerFnError::Registration(m.clone()),
            Self::Request(m) => ServerFnError::Request(m.clone()),
            Self::Response(m) => ServerFnError::Response(m.clone()),
            Self::ServerError(m) => ServerFnError::ServerError(m.clone()),
            Self::Deserialization(m) => ServerFnError::Deserialization(m.clone()),
            Self::Serialization(m) => ServerFnError::Serialization(m.clone()),
            Self::Args(m) => ServerFnError::Args(m.clone()),
            Self::MissingArg(m) => ServerFnError::MissingArg(m.clone()),
        };
        format!("{outside:?}")
    }
}

} // verus!
