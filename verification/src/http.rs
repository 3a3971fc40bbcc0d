//! The outbound HTTP call, reduced to the outcome the rest of the crate
//! reasons about.
//!
//! A call to the endpoint ends in one of three ways: the endpoint accepted
//! the request, the endpoint answered with a failure status, or no response
//! was obtained at all. Nothing can be promised about which of them a given
//! call reaches — that depends on the network and the remote service — so
//! the translation into a typed error is a separate, fully specified
//! function over this outcome type.

use vstd::prelude::*;

verus! {

/// What one HTTP POST to the endpoint came to.
pub enum HttpOutcome {
    /// The endpoint accepted the request; the body of its answer is
    /// discarded.
    Success,
    /// The endpoint answered with a failure status. The body is kept for
    /// the error translation; it is `None` where it could not be read.
    Failure { status: u16, body: Option<String> },
    /// No response was obtained: the connection, the name lookup, the TLS
    /// setup or the transfer itself failed. The text describes the failure.
    Transport { detail: String },
}

/// The view of an outcome: the same shape over mathematical strings.
pub enum HttpOutcomeView {
    Success,
    Failure { status: u16, body: Option<Seq<char>> },
    Transport { detail: Seq<char> },
}

impl View for HttpOutcome {
    type V = HttpOutcomeView;

    open spec fn view(&self) -> HttpOutcomeView {
        match self {
            HttpOutcome::Success => HttpOutcomeView::Success,
            HttpOutcome::Failure { status, body } => HttpOutcomeView::Failure {
                status: *status,
                body: match body {
                    None => None,
                    Some(b) => Some(b@),
                },
            },
            HttpOutcome::Transport { detail } => HttpOutcomeView::Transport { detail: detail@ },
        }
    }
}

/// Relies on `ureq::post`, `Request::set`, `Request::send_string` and
/// `Response::into_string` of the ureq crate: one blocking POST of `body`
/// to `url`, with JSON headers. `send_string` returns the response for a
/// status below 400 and `Error::Status` with the response for any other
/// status; `Error::Transport` stands for every failure without a response.
/// The outcome depends on the network, so nothing is promised of it.
#[verifier::external_body]
pub(crate) fn post_json(url: &str, body: &str) -> HttpOutcome {
    let call = ureq::post(url).set("accept", "application/json").set(
        "content-type",
        "application/json",
    ).send_string(body);
    match call {
        Ok(_) => HttpOutcome::Success,
        Err(ureq::Error::Status(status, response)) => match response.into_string() {
            Ok(text) => HttpOutcome::Failure { status, body: Some(text) },
            Err(_) => HttpOutcome::Failure { status, body: None },
        },
        Err(ureq::Error::Transport(transport)) => HttpOutcome::Transport {
            detail: transport.to_string(),
        },
    }
}

} // verus!
