//! The result of a function call. It may be success or failure.

use vstd::prelude::*;
use crate::http::HttpOutcome;
use crate::http::HttpOutcomeView;
use crate::parse::error_description;
use crate::parse::spec_error_description;

verus! {

/// Why a call failed.
pub enum Error {
    /// Cannot request to or read data from the endpoint. It could be a
    /// network issue, SSL certificate setup, and more.
    EndpointConnection,
    /// The endpoint returns data that does not follow specification.
    EndpointResponse,
    /// The endpoint reports an error. It could be invalid data from the
    /// client or an internal endpoint error. Unfortunately, there are no
    /// official error cases, only a short human-readable description.
    Endpoint { description: String },
}

/// The view of an error: the same shape over a mathematical string.
pub enum ErrorView {
    EndpointConnection,
    EndpointResponse,
    Endpoint { description: Seq<char> },
}

impl View for Error {
    type V = ErrorView;

    open spec fn view(&self) -> ErrorView {
        match self {
            Error::EndpointConnection => ErrorView::EndpointConnection,
            Error::EndpointResponse => ErrorView::EndpointResponse,
            Error::Endpoint { description } => ErrorView::Endpoint {
                description: description@,
            },
        }
    }
}

/// The view of a whole call result.
pub open spec fn result_view(r: Result<(), Error>) -> Result<(), ErrorView> {
    match r {
        Ok(u) => Ok(u),
        Err(e) => Err(e@),
    }
}

/// What a call comes to for each outcome of its POST: success for an
/// accepted request; `EndpointConnection` where no response was obtained;
/// the endpoint's own `description` where a failure response carries one;
/// and `EndpointResponse` where a failure response carries none — an
/// unreadable body, or a body without the expected shape.
pub open spec fn spec_translate(o: HttpOutcomeView) -> Result<(), ErrorView> {
    match o {
        HttpOutcomeView::Success => Ok(()),
        HttpOutcomeView::Transport { detail } => Err(ErrorView::EndpointConnection),
        HttpOutcomeView::Failure { status, body } => match body {
            None => Err(ErrorView::EndpointResponse),
            Some(b) => match spec_error_description(b) {
                None => Err(ErrorView::EndpointResponse),
                Some(d) => Err(ErrorView::Endpoint { description: d }),
            },
        },
    }
}

/// Turns the outcome of one POST to the endpoint into the result the
/// caller sees.
pub fn translate_outcome(outcome: HttpOutcome) -> (r: Result<(), Error>)
    ensures
        result_view(r) == spec_translate(outcome@),
{
    match outcome {
        HttpOutcome::Success => Ok(()),
        HttpOutcome::Transport { detail: _ } => Err(Error::EndpointConnection),
        HttpOutcome::Failure { status: _, body } => match body {
            None => Err(Error::EndpointResponse),
            Some(b) => match error_description(b.as_str()) {
                None => Err(Error::EndpointResponse),
                Some(d) => Err(Error::Endpoint { description: d }),
            },
        },
    }
}

/// The text of [`Error::display_string`].
pub open spec fn spec_display(e: ErrorView) -> Seq<char> {
    match e {
        ErrorView::EndpointConnection => "EndpointConnection"@,
        ErrorView::EndpointResponse => "EndpointResponse"@,
        ErrorView::Endpoint { description } => "Endpoint: "@ + description,
    }
}

impl Error {
    /// One line describing the error, with the endpoint's own description
    /// where there is one.
    pub fn display_string(&self) -> (r: String)
        ensures
            r@ == spec_display(self@),
    {
        match self {
            Error::EndpointConnection => String::from_str("EndpointConnection"),
            Error::EndpointResponse => String::from_str("EndpointResponse"),
            Error::Endpoint { description } => {
                let mut out = String::from_str("Endpoint: ");
                out.append(description.as_str());
                out
            },
        }
    }
}

} // verus!
