//! The handlers of the endpoints under `/questions`. Each takes the
//! collection of questions, the one part of the store that it touches.

use crate::error::Error;
use crate::params::QueryParams;
use crate::reply::{Reply, OK};
use crate::store::model::QuestionsView;
use crate::store::questions::{limit_view, question_views, Questions};
use crate::types::pagination::{
    extract_index_range, extract_index_range_spec, extract_pagination, extract_pagination_spec,
};
use crate::types::question::{NewQuestion, Question, QuestionView};
use vstd::prelude::*;

verus! {

/// What a listing by limit and offset answers: the failure of the extractor
/// where it fails, else what the store gives for the page.
pub open spec fn get_questions_spec(
    params: Map<Seq<char>, Seq<char>>,
    questions: QuestionsView,
) -> Result<Seq<QuestionView>, Error> {
    match extract_pagination_spec(params) {
        Err(e) => Err(e),
        Ok(page) => questions.get(limit_view(page.limit), page.offset as int),
    }
}

/// Lists the questions, paged by the parameters `limit` and `offset` of the
/// query. Without them the whole list is returned.
pub fn get_questions(params: QueryParams, questions: &Questions) -> (r: Result<
    Vec<Question>,
    Error,
>)
    ensures
        match r {
            Ok(list) => get_questions_spec(params@, questions@) == Ok::<
                Seq<QuestionView>,
                Error,
            >(question_views(list@)),
            Err(e) => get_questions_spec(params@, questions@) == Err::<Seq<QuestionView>, Error>(
                e,
            ),
        },
{
    let page = match extract_pagination(params) {
        Ok(page) => page,
        Err(e) => {
            return Err(e);
        },
    };
    questions.get(page.limit, page.offset)
}

/// What a listing by a range of places answers: the failure of the extractor
/// where it fails; the whole list where no range is asked for; a failure
/// where the range ends behind the list; else the questions at its places.
pub open spec fn get_questions_in_range_spec(
    params: Map<Seq<char>, Seq<char>>,
    questions: QuestionsView,
) -> Result<Seq<QuestionView>, Error> {
    match extract_index_range_spec(params) {
        Err(e) => Err(e),
        Ok(None) => Ok(questions.list),
        Ok(Some(range)) => if range.end > questions.list.len() {
            Err(Error::OutOfBounds)
        } else {
            Ok(questions.list.subrange(range.start as int, range.end as int))
        },
    }
}

/// Lists the questions at the places that the parameters `start` and `end`
/// of the query name. The parameters are checked before the store is asked,
/// the range against the list after it.
pub fn get_questions_in_range(params: QueryParams, questions: &Questions) -> (r: Result<
    Vec<Question>,
    Error,
>)
    ensures
        match r {
            Ok(list) => get_questions_in_range_spec(params@, questions@) == Ok::<
                Seq<QuestionView>,
                Error,
            >(question_views(list@)),
            Err(e) => get_questions_in_range_spec(params@, questions@) == Err::<
                Seq<QuestionView>,
                Error,
            >(e),
        },
{
    let range = match extract_index_range(params) {
        Ok(range) => range,
        Err(e) => {
            return Err(e);
        },
    };
    let all = match questions.get(None, 0) {
        Ok(all) => all,
        Err(e) => {
            return Err(e);
        },
    };
    assert(question_views(all@) =~= questions@.list);
    match range {
        None => Ok(all),
        Some(range) => {
            let ghost whole = all@;
            match range.slice(all) {
                Ok(list) => {
                    assert(question_views(list@) =~= question_views(whole).subrange(
                        range.start as int,
                        range.end as int,
                    ));
                    Ok(list)
                },
                Err(e) => Err(e),
            }
        },
    }
}

/// Adds a question and says so.
pub fn add_question(questions: &mut Questions, new_question: NewQuestion) -> (r: Result<
    Reply,
    Error,
>)
    ensures
        final(questions)@.wf(),
        final(questions)@ == old(questions)@.add(new_question@),
        r is Err <==> old(questions)@.full(),
        r matches Err(e) ==> e == Error::DatabaseQueryError,
        r matches Ok(reply) ==> reply.status == OK && reply.body@ == "question added"@,
{
    match questions.add(new_question) {
        Ok(_) => Ok(Reply::question_added()),
        Err(e) => Err(e),
    }
}

/// Replaces the question with the id `id` and returns the new record.
pub fn update_question(id: i32, questions: &mut Questions, question: Question) -> (r: Result<
    Question,
    Error,
>)
    ensures
        final(questions)@.wf(),
        final(questions)@ == old(questions)@.update(question@, id as int),
        r is Err <==> !old(questions)@.has(id as int),
        r matches Err(e) ==> e == Error::QuestionNotFound,
        r matches Ok(q) ==> q@ == (QuestionView { id: id as int, ..question@ }),
{
    questions.update(question, id)
}

/// Deletes the question with the id `id` and says so.
pub fn delete_question(id: i32, questions: &mut Questions) -> (r: Result<Reply, Error>)
    ensures
        final(questions)@.wf(),
        final(questions)@ == old(questions)@.delete(id as int),
        r is Err <==> !old(questions)@.has(id as int),
        r matches Err(e) ==> e == Error::QuestionNotFound,
        r matches Ok(reply) ==> reply.status == OK && reply.body@ == Reply::deleted_text(id as int),
{
    match questions.delete(id) {
        Ok(_) => Ok(Reply::question_deleted(id)),
        Err(e) => Err(e),
    }
}

} // verus!
