//! An error shape that keeps the status line of the failing call.
//!
//! Unlike [`crate::result::Error`], which folds every failure into three
//! variants, this shape keeps one broad code and folds what is known — the
//! status and the endpoint's own description — into one line of text.

use vstd::prelude::*;
use crate::http::HttpOutcome;
use crate::http::HttpOutcomeView;
use crate::json::decimal_digits;
use crate::json::format_u64;
use crate::parse::error_description;
use crate::parse::spec_error_description;

verus! {

/// An error of one endpoint call.
pub struct Error {
    code: ErrorCode,
    description: String,
}

/// The broad class of an error.
pub enum ErrorCode {
    /// An error is returned by API endpoint. It could be server, client or
    /// transport layer error.
    Endpoint,
}

/// The description of a failure response: the endpoint's own description
/// behind the status line, or a note that the body could not be read as
/// the expected shape.
pub open spec fn spec_failure_description(status: u16, body: Option<Seq<char>>) -> Seq<char> {
    match body {
        None => "Cannot parse API response."@,
        Some(b) => match spec_error_description(b) {
            None => "Cannot parse API response."@,
            Some(d) => "status="@ + decimal_digits(status as nat) + "; description="@ + d,
        },
    }
}

/// The text of [`ErrorCode::display_string`].
pub open spec fn spec_code_display(c: ErrorCode) -> Seq<char> {
    match c {
        ErrorCode::Endpoint => "Endpoint"@,
    }
}

impl ErrorCode {
    /// The code's name.
    pub fn display_string(&self) -> (r: String)
        ensures
            r@ == spec_code_display(*self),
    {
        String::from_str("Endpoint")
    }
}

impl Error {
    /// The broad class of this error.
    pub closed spec fn spec_code(&self) -> ErrorCode {
        self.code
    }

    /// What is known of this error, as one line of text.
    pub closed spec fn spec_description(&self) -> Seq<char> {
        self.description@
    }

    /// Folds a failed call into an error: the transport's own text where
    /// no response was obtained, and [`spec_failure_description`] where
    /// the endpoint answered with a failure status.
    pub fn from_http_api_error(outcome: HttpOutcome) -> (r: Self)
        requires
            !(outcome@ is Success),
        ensures
            r.spec_code() == ErrorCode::Endpoint,
            match outcome@ {
                HttpOutcomeView::Success => true,
                HttpOutcomeView::Failure { status, body } => r.spec_description()
                    == spec_failure_description(status, body),
                HttpOutcomeView::Transport { detail } => r.spec_description() == detail,
            },
    {
        match outcome {
            HttpOutcome::Success => unreached(),
            HttpOutcome::Transport { detail } => Error {
                code: ErrorCode::Endpoint,
                description: detail,
            },
            HttpOutcome::Failure { status, body } => {
                let description = match body {
                    None => String::from_str("Cannot parse API response."),
                    Some(b) => match error_description(b.as_str()) {
                        None => String::from_str("Cannot parse API response."),
                        Some(d) => {
                            let mut out = String::from_str("status=");
                            let num = format_u64(status as u64);
                            out.append(num.as_str());
                            out.append("; description=");
                            out.append(d.as_str());
                            out
                        },
                    },
                };
                Error { code: ErrorCode::Endpoint, description }
            },
        }
    }

    /// One line naming the code and the description.
    pub fn display_string(&self) -> (r: String)
        ensures
            r@ == "code="@ + spec_code_display(self.spec_code()) + "; description="@
                + self.spec_description(),
    {
        let mut out = String::from_str("code=");
        let code = self.code.display_string();
        out.append(code.as_str());
        out.append("; description=");
        out.append(self.description.as_str());
        out
    }
}

} // verus!
