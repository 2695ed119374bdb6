//! Answers: the stored record, its id, and the record as a client sends it.

use crate::error::Error;
use crate::number::{parse_i32, parse_i32_spec};
use crate::params::QueryParams;
use crate::types::question::QuestionId;
use vstd::prelude::*;

verus! {

/// The id of an answer: the store assigns it, and no two stored answers share
/// one.
#[derive(Clone, Copy, Debug, PartialEq, Eq, Hash, Structural)]
pub struct AnswerId(pub i32);

/// A stored answer. `question_id` names the question that it answers; nothing
/// checks that such a question is, or stays, in the store.
#[derive(Debug)]
pub struct Answer {
    pub id: AnswerId,
    pub content: String,
    pub question_id: QuestionId,
}

/// An answer that has no id yet.
#[derive(Debug)]
pub struct NewAnswer {
    pub content: String,
    pub question_id: QuestionId,
}

/// What an answer holds.
pub struct AnswerView {
    pub id: int,
    pub content: Seq<char>,
    pub question_id: int,
}

/// What an answer without an id holds.
pub struct NewAnswerView {
    pub content: Seq<char>,
    pub question_id: int,
}

impl NewAnswerView {
    /// The answer that this becomes under the id `id`.
    pub open spec fn with_id(self, id: int) -> AnswerView {
        AnswerView { id, content: self.content, question_id: self.question_id }
    }
}

impl View for Answer {
    type V = AnswerView;

    open spec fn view(&self) -> AnswerView {
        AnswerView {
            id: self.id.0 as int,
            content: self.content@,
            question_id: self.question_id.0 as int,
        }
    }
}

impl View for NewAnswer {
    type V = NewAnswerView;

    open spec fn view(&self) -> NewAnswerView {
        NewAnswerView { content: self.content@, question_id: self.question_id.0 as int }
    }
}

impl Clone for Answer {
    fn clone(&self) -> (res: Self)
        ensures
            res@ == self@,
    {
        Answer { id: self.id, content: self.content.clone(), question_id: self.question_id }
    }
}

impl Clone for NewAnswer {
    fn clone(&self) -> (res: Self)
        ensures
            res@ == self@,
    {
        NewAnswer { content: self.content.clone(), question_id: self.question_id }
    }
}

/// The answer that the fields of a form describe. Both `content` and
/// `question_id` must be there, and `question_id` must read as an `i32`.
pub open spec fn extract_new_answer_spec(params: Map<Seq<char>, Seq<char>>) -> Result<
    NewAnswerView,
    Error,
> {
    if !params.contains_key("content"@) || !params.contains_key("question_id"@) {
        Err(Error::MissingParameters)
    } else {
        match parse_i32_spec(params["question_id"@]) {
            Err(kind) => Err(Error::ParseError(kind)),
            Ok(id) => Ok(NewAnswerView { content: params["content"@], question_id: id }),
        }
    }
}

/// Reads a new answer from the fields `content` and `question_id` of a form.
/// Other fields are not looked at.
pub fn extract_new_answer(params: &QueryParams) -> (r: Result<NewAnswer, Error>)
    ensures
        match r {
            Ok(answer) => extract_new_answer_spec(params@) == Ok::<NewAnswerView, Error>(answer@),
            Err(e) => extract_new_answer_spec(params@) == Err::<NewAnswerView, Error>(e),
        },
{
    match (params.get("content"), params.get("question_id")) {
        (Some(content), Some(id_text)) => {
            match parse_i32(id_text.as_str()) {
                Ok(id) => Ok(NewAnswer { content: content.clone(), question_id: QuestionId(id) }),
                Err(kind) => Err(Error::ParseError(kind)),
            }
        },
        _ => Err(Error::MissingParameters),
    }
}

} // verus!
