//! The handler of the endpoint `/answers`. It takes the collection of
//! answers, the one part of the store that it touches.

use crate::error::Error;
use crate::params::QueryParams;
use crate::reply::{Reply, OK};
use crate::store::answers::Answers;
use crate::types::answer::{extract_new_answer, extract_new_answer_spec};
use vstd::prelude::*;

verus! {

/// Adds the answer that the fields `content` and `question_id` of a form
/// describe, and says so. Where the form does not give an answer the
/// collection is not touched.
pub fn add_answer(answers: &mut Answers, params: QueryParams) -> (r: Result<Reply, Error>)
    ensures
        match extract_new_answer_spec(params@) {
            Err(e) => r == Err::<Reply, Error>(e) && final(answers)@ == old(answers)@,
            Ok(answer) => {
                &&& final(answers)@.wf()
                &&& final(answers)@ == old(answers)@.add(answer)
                &&& r is Err <==> old(answers)@.full()
                &&& r matches Err(e) ==> e == Error::DatabaseQueryError
                &&& r matches Ok(reply) ==> reply.status == OK && reply.body@ == "Answer added"@
            },
        },
{
    let answer = match extract_new_answer(&params) {
        Ok(answer) => answer,
        Err(e) => {
            return Err(e);
        },
    };
    match answers.add(answer) {
        Ok(_) => Ok(Reply::answer_added()),
        Err(e) => Err(e),
    }
}

} // verus!
