//! What can go wrong with an HTTP request.

use vstd::prelude::*;
use vstd::string::StringExecFns;

verus! {

/// What the text of an [`HttpError`] begins with, before the text of its cause.
pub const HTTP_ERROR_PREFIX: &'static str = "HTTP error: ";

/// An error that arose elsewhere, with the text that describes it.
pub struct Described<S> {
    /// The error itself
    pub error: S,
    /// How that error reads in a message, without anything that it caused
    pub text: String,
}

/// The worker of a spawned request went away without a reply.
#[derive(Clone, Copy, Debug, PartialEq, Eq, Structural)]
pub struct SpawnError {}

impl SpawnError {
    /// How the error reads in a message.
    pub fn text(&self) -> (r: String)
        ensures
            r@ == "SpawnError"@,
    {
        "SpawnError".to_string()
    }
}

/// The class of an [`HttpError`].
#[derive(Clone, Copy, Debug, PartialEq, Eq, Structural)]
pub enum HttpErrorKind {
    /// The connection could not be made
    Connect,
    /// The request could not be sent
    Request,
    /// The request took too long
    Timeout,
    /// The request was cut off
    Interrupted,
    /// The response could not be decoded
    Decode,
    /// None of the other classes
    Unknown,
}

/// What caused an [`HttpError`].
pub enum ErrorSource<S> {
    /// The service that performed the request
    Service(Described<S>),
    /// The loss of the worker that ran the service
    Spawn(SpawnError),
}

/// A failed HTTP request. `S` is the error type of the service that performs requests.
pub struct HttpError<S> {
    /// The class of the failure
    pub kind: HttpErrorKind,
    /// What caused the failure
    pub source: ErrorSource<S>,
}

impl<S> ErrorSource<S> {
    /// How the cause reads in a message.
    pub open spec fn text_view(&self) -> Seq<char> {
        match self {
            ErrorSource::Service(described) => described.text@,
            ErrorSource::Spawn(_) => "SpawnError"@,
        }
    }

    /// How the cause reads in a message.
    pub fn text(&self) -> (r: String)
        ensures
            r@ == self.text_view(),
            self matches ErrorSource::Service(described) ==> r@ == described.text@,
            self is Spawn ==> r@ == "SpawnError"@,
    {
        match self {
            ErrorSource::Service(described) => described.text.clone(),
            ErrorSource::Spawn(lost) => lost.text(),
        }
    }
}

impl<S> HttpError<S> {
    /// How the whole error reads in a message.
    pub open spec fn text_view(&self) -> Seq<char> {
        HTTP_ERROR_PREFIX@ + self.source.text_view()
    }

    /// How the whole error reads in a message.
    pub fn text(&self) -> (r: String)
        ensures
            r@ == self.text_view(),
            self.source matches ErrorSource::Service(described) ==> r@ == "HTTP error: "@
                + described.text@,
            self.source is Spawn ==> r@ == "HTTP error: "@ + "SpawnError"@,
    {
        let cause = self.source.text();
        HTTP_ERROR_PREFIX.to_string().concat(cause.as_str())
    }
}

impl<S> From<SpawnError> for HttpError<S> {
    /// A request whose worker went away was interrupted.
    fn from(value: SpawnError) -> (r: Self) {
        HttpError { kind: HttpErrorKind::Interrupted, source: ErrorSource::Spawn(value) }
    }
}

impl<S> vstd::std_specs::convert::FromSpecImpl<SpawnError> for HttpError<S> {
    open spec fn obeys_from_spec() -> bool {
        true
    }

    open spec fn from_spec(value: SpawnError) -> Self {
        HttpError { kind: HttpErrorKind::Interrupted, source: ErrorSource::Spawn(value) }
    }
}


/// The text of an error ends in the text of what caused it, and begins the same whatever that is.
pub proof fn an_error_reads_as_its_cause_does<S>(error: HttpError<S>)
    ensures
        error.source matches ErrorSource::Service(described) ==> error.text_view()
            == "HTTP error: "@ + described.text@,
        error.source is Spawn ==> error.text_view() == "HTTP error: "@ + "SpawnError"@,
{
}

/// A request that lost its worker was interrupted, by that very loss.
pub proof fn a_lost_worker_is_an_interruption<S>(lost: SpawnError)
    ensures
        ({
            let error = <HttpError<S> as vstd::std_specs::convert::FromSpec<SpawnError>>::from_spec(
                lost,
            );
            error.kind is Interrupted && error.source == ErrorSource::<S>::Spawn(lost)
        }),
{
}

} // verus!
