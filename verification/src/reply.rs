//! What is sent back for a request: a status and a text body.

use crate::number::{format_i32, int_text};
use vstd::prelude::*;

verus! {

/// Status of a rejection by the cross-origin policy.
pub const FORBIDDEN: u16 = 403;

/// Status of a request that no route matches.
pub const NOT_FOUND: u16 = 404;

/// Status of a failure that the client's parameters caused.
pub const RANGE_NOT_SATISFIABLE: u16 = 416;

/// Status of a body that could not be decoded, and of a request that the
/// backing store turned down.
pub const UNPROCESSABLE_ENTITY: u16 = 422;

/// Status of a request that was served.
pub const OK: u16 = 200;

/// A status and a text body.
#[derive(Debug)]
pub struct Reply {
    pub status: u16,
    pub body: String,
}

impl Reply {
    /// The words that report the deleting of the question with the id `id`.
    pub open spec fn deleted_text(id: int) -> Seq<char> {
        "Question "@ + int_text(id) + " deleted"@
    }

    /// The reply to a question that was added.
    pub fn question_added() -> (reply: Reply)
        ensures
            reply.status == OK,
            reply.body@ == "question added"@,
    {
        Reply { status: OK, body: "question added".to_owned() }
    }

    /// The reply to a question that was deleted; it names the id.
    pub fn question_deleted(id: i32) -> (reply: Reply)
        ensures
            reply.status == OK,
            reply.body@ == Reply::deleted_text(id as int),
    {
        let number = format_i32(id);
        let body = "Question ".to_owned().concat(number.as_str()).concat(" deleted");
        Reply { status: OK, body }
    }

    /// The reply to an answer that was added.
    pub fn answer_added() -> (reply: Reply)
        ensures
            reply.status == OK,
            reply.body@ == "Answer added"@,
    {
        Reply { status: OK, body: "Answer added".to_owned() }
    }
}

} // verus!
