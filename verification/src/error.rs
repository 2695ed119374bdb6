//! The failures that a request can end in, the text of each, and the one
//! mapping from a rejected request to the status and body that answer it.

use crate::number::IntErrorKind;
use crate::reply::{Reply, FORBIDDEN, NOT_FOUND, RANGE_NOT_SATISFIABLE, UNPROCESSABLE_ENTITY};
use vstd::prelude::*;

verus! {

/// A failure that is reported to the client. Each is returned by the layer
/// that detects it.
#[derive(Clone, Copy, Debug, PartialEq, Eq, Structural)]
pub enum Error {
    /// A pagination parameter is not a number; holds why.
    ParseError(IntErrorKind),
    /// One parameter of a pair is there without the other.
    MissingParameters,
    /// An index range ends behind the last item.
    OutOfBounds,
    /// An index range starts behind its end.
    StartLargerThanEnd,
    /// No question has the given id.
    QuestionNotFound,
    /// The backing store turned the request down.
    DatabaseQueryError,
}

impl Error {
    /// The text that is sent to the client.
    pub open spec fn message_spec(self) -> Seq<char> {
        match self {
            Error::ParseError(kind) => "cannot parse parameter: "@ + kind.message_spec(),
            Error::MissingParameters => "Missing parameter."@,
            Error::OutOfBounds => "Index out of bounds."@,
            Error::StartLargerThanEnd => "Start larger than end."@,
            Error::QuestionNotFound => "Question not found"@,
            Error::DatabaseQueryError => "Cannot update, invalid data."@,
        }
    }

    /// The status that the failure is answered with.
    pub open spec fn status_spec(self) -> u16 {
        match self {
            Error::DatabaseQueryError => UNPROCESSABLE_ENTITY,
            _ => RANGE_NOT_SATISFIABLE,
        }
    }

    /// The text that is sent to the client.
    pub fn message(&self) -> (r: String)
        ensures
            r@ == self.message_spec(),
    {
        match self {
            Error::ParseError(kind) => {
                let text = kind.message();
                "cannot parse parameter: ".to_owned().concat(text.as_str())
            },
            Error::MissingParameters => "Missing parameter.".to_owned(),
            Error::OutOfBounds => "Index out of bounds.".to_owned(),
            Error::StartLargerThanEnd => "Start larger than end.".to_owned(),
            Error::QuestionNotFound => "Question not found".to_owned(),
            Error::DatabaseQueryError => "Cannot update, invalid data.".to_owned(),
        }
    }

    /// The status that the failure is answered with.
    pub fn status(&self) -> (r: u16)
        ensures
            r == self.status_spec(),
    {
        match self {
            Error::DatabaseQueryError => UNPROCESSABLE_ENTITY,
            _ => RANGE_NOT_SATISFIABLE,
        }
    }
}

/// Why a request did not reach its answer.
#[derive(Debug)]
pub enum Rejection {
    /// A handler, the extractor or the store failed.
    Failure(Error),
    /// The cross-origin policy refused the request; holds the refusal's text.
    CorsForbidden(String),
    /// The body could not be decoded; holds the decoder's text.
    BodyDeserializeError(String),
    /// Anything else: no route matched.
    NotFound,
}

impl Rejection {
    /// The status that answers the rejection.
    pub open spec fn status_spec(self) -> u16 {
        match self {
            Rejection::Failure(e) => e.status_spec(),
            Rejection::CorsForbidden(_) => FORBIDDEN,
            Rejection::BodyDeserializeError(_) => UNPROCESSABLE_ENTITY,
            Rejection::NotFound => NOT_FOUND,
        }
    }

    /// The body that answers the rejection.
    pub open spec fn body_spec(self) -> Seq<char> {
        match self {
            Rejection::Failure(e) => e.message_spec(),
            Rejection::CorsForbidden(text) => text@,
            Rejection::BodyDeserializeError(text) => text@ + ", Please try again later!"@,
            Rejection::NotFound => "Route not found"@,
        }
    }
}

/// Turns a rejected request into the reply that is sent for it. Every
/// rejection gets exactly one reply; what nothing else matches is answered as
/// a route that was not found.
pub fn return_error(r: &Rejection) -> (reply: Reply)
    ensures
        reply.status == r.status_spec(),
        reply.body@ == r.body_spec(),
{
    match r {
        Rejection::Failure(e) => Reply { status: e.status(), body: e.message() },
        Rejection::CorsForbidden(text) => Reply { status: FORBIDDEN, body: text.clone() },
        Rejection::BodyDeserializeError(text) => Reply {
            status: UNPROCESSABLE_ENTITY,
            body: text.clone().concat(", Please try again later!"),
        },
        Rejection::NotFound => Reply { status: NOT_FOUND, body: "Route not found".to_owned() },
    }
}

} // verus!
