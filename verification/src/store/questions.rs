//! The collection of questions.

use crate::error::Error;
use crate::store::model::QuestionsView;
use crate::types::question::{NewQuestion, Question, QuestionId, QuestionView};
use vstd::prelude::*;

verus! {

/// The questions of the service, held in memory in the order in which they
/// were added. It can be shared and locked apart from the answers.
#[derive(Debug)]
pub struct Questions {
    list: Vec<Question>,
    next_id: i64,
}

/// What a list of questions holds.
pub open spec fn question_views(list: Seq<Question>) -> Seq<QuestionView> {
    list.map_values(|q: Question| q@)
}

/// A limit as a number without bounds.
pub open spec fn limit_view(limit: Option<i32>) -> Option<int> {
    match limit {
        Some(l) => Some(l as int),
        None => None,
    }
}

impl View for Questions {
    type V = QuestionsView;

    closed spec fn view(&self) -> QuestionsView {
        QuestionsView { list: question_views(self.list@), next_id: self.next_id as int }
    }
}

impl Questions {
    #[verifier::type_invariant]
    spec fn inv(self) -> bool {
        self@.wf()
    }

    /// A collection that holds nothing.
    pub fn new() -> (questions: Questions)
        ensures
            questions@ == QuestionsView::empty(),
            questions@.wf(),
    {
        let questions = Questions { list: Vec::new(), next_id: 1 };
        assert(questions@.list =~= Seq::empty());
        questions
    }

    /// The collection that holds the questions of `list` under the ids that
    /// they have, for a service that starts with questions. There is one
    /// where the ids start at 1 or above and grow along the list, and none
    /// else.
    pub fn from_list(list: Vec<Question>) -> (r: Option<Questions>)
        ensures
            r is Some <==> QuestionsView::holding(question_views(list@)).wf(),
            r matches Some(questions) ==> questions@ == QuestionsView::holding(
                question_views(list@),
            ),
    {
        let ghost held = QuestionsView::holding(question_views(list@));
        let mut next_id: i64 = 1;
        let mut i: usize = 0;
        while i < list.len()
            invariant
                i <= list.len(),
                held == QuestionsView::holding(question_views(list@)),
                1 <= next_id <= i32::MAX + 1,
                i == 0 ==> next_id == 1,
                i > 0 ==> next_id == list[i - 1].id.0 + 1,
                forall|a: int| 0 <= a < i ==> 1 <= (#[trigger] list[a]).id.0 < next_id,
                forall|a: int, b: int|
                    0 <= a < b < i ==> (#[trigger] list[a]).id.0 < (#[trigger] list[b]).id.0,
            decreases list.len() - i,
        {
            let id = list[i].id.0;
            if (id as i64) < next_id {
                proof {
                    // the question at place `i` has an id below 1, or not above the one before
                    assert(held.list[i as int].id == id);
                    if i > 0 {
                        assert(held.list[i - 1].id == list[i - 1].id.0);
                    }
                }
                return None;
            }
            next_id = id as i64 + 1;
            i += 1;
        }
        proof {
            assert forall|a: int| 0 <= a < held.list.len() implies 1 <= (#[trigger] held.list[a]).id
                < held.next_id by {
                assert(held.list[a].id == list[a].id.0);
            }
            assert forall|a: int, b: int| 0 <= a < b < held.list.len() implies (
            #[trigger] held.list[a]).id < (#[trigger] held.list[b]).id by {
                assert(held.list[a].id == list[a].id.0);
                assert(held.list[b].id == list[b].id.0);
            }
        }
        Some(Questions { list, next_id })
    }

    /// The number of questions.
    pub fn len(&self) -> (n: usize)
        ensures
            self@.wf(),
            n == self@.list.len(),
    {
        proof {
            use_type_invariant(self);
        }
        self.list.len()
    }

    /// The questions from place `offset` on, `limit` of them at most, or all
    /// that are left where `limit` is `None`. An offset or a limit beyond the
    /// end is no failure: the list that comes back is shorter, or empty. A
    /// negative offset or limit is turned down.
    pub fn get(&self, limit: Option<i32>, offset: i32) -> (r: Result<Vec<Question>, Error>)
        ensures
            self@.wf(),
            match r {
                Ok(list) => self@.get(limit_view(limit), offset as int) == Ok::<
                    Seq<QuestionView>,
                    Error,
                >(question_views(list@)),
                Err(e) => self@.get(limit_view(limit), offset as int) == Err::<
                    Seq<QuestionView>,
                    Error,
                >(e),
            },
            offset >= 0 && (limit matches Some(l) ==> l >= 0) ==> r is Ok,
            r matches Ok(list) ==> {
                &&& list.len() == self@.page(limit_view(limit), offset as int).len()
                &&& limit matches Some(l) ==> list.len() <= l
                &&& limit is None && offset <= self@.list.len() ==> list.len() == self@.list.len()
                    - offset
                &&& offset >= self@.list.len() ==> list.len() == 0
                &&& forall|i: int|
                    0 <= i < list.len() ==> offset + i < self@.list.len() && (#[trigger] list[i])@
                        == self@.list[offset + i]
            },
    {
        proof {
            use_type_invariant(self);
        }
        if offset < 0 {
            return Err(Error::DatabaseQueryError);
        }
        let len = self.list.len();
        let start: usize = if (offset as usize) < len {
            offset as usize
        } else {
            len
        };
        let end: usize = match limit {
            Some(l) => {
                if l < 0 {
                    return Err(Error::DatabaseQueryError);
                }
                if (l as usize) < len - start {
                    start + l as usize
                } else {
                    len
                }
            },
            None => len,
        };
        let mut list: Vec<Question> = Vec::new();
        let mut i = start;
        while i < end
            invariant
                start <= i <= end <= self.list.len(),
                question_views(list@) =~= question_views(self.list@).subrange(
                    start as int,
                    i as int,
                ),
            decreases end - i,
        {
            let ghost before = list@;
            let copy = self.list[i].clone();
            list.push(copy);
            proof {
                let want = question_views(self.list@).subrange(start as int, i + 1);
                assert(question_views(before).len() == before.len());
                assert forall|k: int| 0 <= k < list@.len() implies question_views(list@)[k]
                    == want[k] by {}
            }
            i += 1;
        }
        proof {
            assert(question_views(list@).len() == list.len());
            assert forall|k: int| 0 <= k < list.len() implies offset + k < self@.list.len() && (
            #[trigger] list[k])@ == self@.list[offset + k] by {
                assert(question_views(list@)[k] == list[k]@);
            }
        }
        Ok(list)
    }

    /// The place of the question with the id `id`.
    fn find(&self, id: i32) -> (r: Option<usize>)
        ensures
            self@.wf(),
            r is Some <==> self@.has(id as int),
            r matches Some(i) ==> i < self.list.len() && i == self@.index_of(id as int)
                && self.list[i as int].id.0 == id,
    {
        proof {
            use_type_invariant(self);
        }
        let mut i: usize = 0;
        while i < self.list.len()
            invariant
                i <= self.list.len(),
                self@.wf(),
                forall|k: int| 0 <= k < i ==> (#[trigger] self@.list[k]).id != id,
            decreases self.list.len() - i,
        {
            if self.list[i].id.0 == id {
                assert(self@.list[i as int].id == id);
                return Some(i);
            }
            i += 1;
        }
        None
    }

    /// Takes the list out of the collection, which is left without questions
    /// until the list is put back.
    fn take_list(&mut self) -> (list: Vec<Question>)
        ensures
            list@ == old(self).list@,
            final(self).list@ == Seq::<Question>::empty(),
            final(self).next_id == old(self).next_id,
    {
        proof {
            use_type_invariant(&*self);
        }
        let mut list: Vec<Question> = Vec::new();
        std::mem::swap(&mut self.list, &mut list);
        list
    }

    /// Adds `new_question` under the next id and returns the stored record.
    /// Fails, and changes nothing, only when every id has been given out.
    pub fn add(&mut self, new_question: NewQuestion) -> (r: Result<Question, Error>)
        ensures
            final(self)@.wf(),
            final(self)@ == old(self)@.add(new_question@),
            r is Err <==> old(self)@.full(),
            r matches Err(e) ==> e == Error::DatabaseQueryError && final(self)@ == old(self)@,
            r matches Ok(q) ==> {
                &&& q@ == new_question@.with_id(old(self)@.next_id)
                &&& final(self)@.list == old(self)@.list.push(q@)
                &&& forall|i: int|
                    0 <= i < old(self)@.list.len() ==> (#[trigger] old(self)@.list[i]).id != q@.id
            },
    {
        proof {
            use_type_invariant(&*self);
        }
        if self.next_id > i32::MAX as i64 {
            return Err(Error::DatabaseQueryError);
        }
        let question = Question {
            id: QuestionId(self.next_id as i32),
            title: new_question.title,
            content: new_question.content,
            tags: new_question.tags,
        };
        let stored = question.clone();
        let mut list = self.take_list();
        list.push(question);
        self.next_id = self.next_id + 1;
        proof {
            let want = old(self)@.add(new_question@).list;
            assert(question_views(list@) =~= want);
        }
        self.list = list;
        Ok(stored)
    }

    /// Replaces the question with the id `id` by `question`, which takes the
    /// id `id` and the place of the old record, and returns the stored record.
    /// Fails, and changes nothing, when no question has that id.
    pub fn update(&mut self, question: Question, id: i32) -> (r: Result<Question, Error>)
        ensures
            final(self)@.wf(),
            final(self)@ == old(self)@.update(question@, id as int),
            r is Err <==> !old(self)@.has(id as int),
            r matches Err(e) ==> e == Error::QuestionNotFound && final(self)@ == old(self)@,
            r matches Ok(q) ==> q@ == (QuestionView { id: id as int, ..question@ }),
    {
        let found = self.find(id);
        match found {
            None => Err(Error::QuestionNotFound),
            Some(i) => {
                let record = Question {
                    id: QuestionId(id),
                    title: question.title,
                    content: question.content,
                    tags: question.tags,
                };
                let stored = record.clone();
                let mut list = self.take_list();
                list.set(i, record);
                proof {
                    let want = old(self)@.update(question@, id as int).list;
                    assert(question_views(list@) =~= want);
                }
                self.list = list;
                Ok(stored)
            },
        }
    }

    /// Takes the question with the id `id` out of the collection. Fails, and
    /// changes nothing, when no question has that id.
    pub fn delete(&mut self, id: i32) -> (r: Result<(), Error>)
        ensures
            final(self)@.wf(),
            final(self)@ == old(self)@.delete(id as int),
            r is Err <==> !old(self)@.has(id as int),
            r matches Err(e) ==> e == Error::QuestionNotFound && final(self)@ == old(self)@,
    {
        let found = self.find(id);
        match found {
            None => Err(Error::QuestionNotFound),
            Some(i) => {
                let mut list = self.take_list();
                list.remove(i);
                proof {
                    let want = old(self)@.delete(id as int).list;
                    assert(question_views(list@) =~= want);
                }
                self.list = list;
                Ok(())
            },
        }
    }
}

} // verus!
