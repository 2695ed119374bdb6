//! The store: the one owner of the questions and answers. Every lookup and
//! every change goes through it.
//!
//! It holds two collections that do not refer to each other. An operation
//! touches one of them only, so a service that shares the store can lock each
//! collection by itself, for many readers or one writer.

pub mod answers;
pub mod model;
pub mod outcome;
pub mod questions;

use crate::error::Error;
use crate::store::answers::{answer_views, Answers};
use crate::store::model::StoreView;
use crate::store::questions::{limit_view, question_views, Questions};
use crate::types::answer::{Answer, NewAnswer};
use crate::types::question::{NewQuestion, Question, QuestionView};
use vstd::prelude::*;

verus! {

/// The questions and answers of the service.
#[derive(Debug)]
pub struct Store {
    pub questions: Questions,
    pub answers: Answers,
}

impl View for Store {
    type V = StoreView;

    open spec fn view(&self) -> StoreView {
        StoreView { questions: self.questions@, answers: self.answers@ }
    }
}

impl Store {
    /// A store that holds nothing.
    pub fn new() -> (store: Store)
        ensures
            store@ == StoreView::empty(),
            store@.wf(),
    {
        Store { questions: Questions::new(), answers: Answers::new() }
    }

    /// The questions from place `offset` on, `limit` of them at most, or all
    /// that are left where `limit` is `None`. An offset or a limit beyond the
    /// end is no failure: the list that comes back is shorter, or empty. A
    /// negative offset or limit is turned down.
    pub fn get_questions(&self, limit: Option<i32>, offset: i32) -> (r: Result<
        Vec<Question>,
        Error,
    >)
        ensures
            self@.questions.wf(),
            match r {
                Ok(list) => self@.questions.get(limit_view(limit), offset as int) == Ok::<
                    Seq<QuestionView>,
                    Error,
                >(question_views(list@)),
                Err(e) => self@.questions.get(limit_view(limit), offset as int) == Err::<
                    Seq<QuestionView>,
                    Error,
                >(e),
            },
            offset >= 0 && (limit matches Some(l) ==> l >= 0) ==> r is Ok,
            r matches Ok(list) ==> {
                &&& list.len() == self@.questions.page(limit_view(limit), offset as int).len()
                &&& limit matches Some(l) ==> list.len() <= l
                &&& limit is None && offset <= self@.questions.list.len() ==> list.len()
                    == self@.questions.list.len() - offset
                &&& offset >= self@.questions.list.len() ==> list.len() == 0
                &&& forall|i: int|
                    0 <= i < list.len() ==> offset + i < self@.questions.list.len() && (
                    #[trigger] list[i])@ == self@.questions.list[offset + i]
            },
    {
        self.questions.get(limit, offset)
    }

    /// The number of questions in the store.
    pub fn question_count(&self) -> (n: usize)
        ensures
            self@.questions.wf(),
            n == self@.questions.list.len(),
    {
        self.questions.len()
    }

    /// The number of answers in the store.
    pub fn answer_count(&self) -> (n: usize)
        ensures
            self@.answers.wf(),
            n == self@.answers.list.len(),
    {
        self.answers.len()
    }

    /// The answers in the order in which they were added.
    pub fn get_answers(&self) -> (list: Vec<Answer>)
        ensures
            self@.answers.wf(),
            answer_views(list@) == self@.answers.list,
    {
        self.answers.get()
    }

    /// Adds `new_question` under the next id and returns the stored record.
    /// Fails, and changes nothing, only when every id has been given out.
    pub fn add_question(&mut self, new_question: NewQuestion) -> (r: Result<Question, Error>)
        ensures
            final(self)@.questions.wf(),
            final(self)@ == old(self)@.add_question(new_question@),
            r is Err <==> old(self)@.questions.full(),
            r matches Err(e) ==> e == Error::DatabaseQueryError && final(self)@ == old(self)@,
            r matches Ok(q) ==> {
                &&& q@ == new_question@.with_id(old(self)@.questions.next_id)
                &&& final(self)@.questions.list == old(self)@.questions.list.push(q@)
                &&& forall|i: int|
                    0 <= i < old(self)@.questions.list.len() ==> (
                    #[trigger] old(self)@.questions.list[i]).id != q@.id
            },
    {
        self.questions.add(new_question)
    }

    /// Replaces the question with the id `id` by `question`, which takes the
    /// id `id` and the place of the old record, and returns the stored record.
    /// Fails, and changes nothing, when no question has that id.
    pub fn update_question(&mut self, question: Question, id: i32) -> (r: Result<Question, Error>)
        ensures
            final(self)@.questions.wf(),
            final(self)@ == old(self)@.update_question(question@, id as int),
            r is Err <==> !old(self)@.questions.has(id as int),
            r matches Err(e) ==> e == Error::QuestionNotFound && final(self)@ == old(self)@,
            r matches Ok(q) ==> q@ == (QuestionView { id: id as int, ..question@ }),
    {
        self.questions.update(question, id)
    }

    /// Takes the question with the id `id` out of the store. Its answers
    /// stay. Fails, and changes nothing, when no question has that id.
    pub fn delete_question(&mut self, id: i32) -> (r: Result<(), Error>)
        ensures
            final(self)@.questions.wf(),
            final(self)@ == old(self)@.delete_question(id as int),
            r is Err <==> !old(self)@.questions.has(id as int),
            r matches Err(e) ==> e == Error::QuestionNotFound && final(self)@ == old(self)@,
    {
        self.questions.delete(id)
    }

    /// Adds `new_answer` and returns the stored record. Its id is the number
    /// of answers that the store held before. Whether the question that it
    /// names is in the store is not looked at. Fails, and changes nothing,
    /// only when every id has been given out.
    pub fn add_answer(&mut self, new_answer: NewAnswer) -> (r: Result<Answer, Error>)
        ensures
            final(self)@.answers.wf(),
            final(self)@ == old(self)@.add_answer(new_answer@),
            r is Err <==> old(self)@.answers.full(),
            r matches Err(e) ==> e == Error::DatabaseQueryError && final(self)@ == old(self)@,
            r matches Ok(a) ==> {
                &&& a@ == new_answer@.with_id(old(self)@.answers.list.len() as int)
                &&& final(self)@.answers.list == old(self)@.answers.list.push(a@)
                &&& forall|i: int|
                    0 <= i < old(self)@.answers.list.len() ==> (
                    #[trigger] old(self)@.answers.list[i]).id != a@.id
            },
    {
        self.answers.add(new_answer)
    }
}

} // verus!
