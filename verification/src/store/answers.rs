//! The collection of answers.

use crate::error::Error;
use crate::store::model::AnswersView;
use crate::types::answer::{Answer, AnswerId, AnswerView, NewAnswer};
use vstd::prelude::*;

verus! {

/// The answers of the service, held in memory in the order in which they
/// were added. It can be shared and locked apart from the questions.
#[derive(Debug)]
pub struct Answers {
    list: Vec<Answer>,
}

/// What a list of answers holds.
pub open spec fn answer_views(list: Seq<Answer>) -> Seq<AnswerView> {
    list.map_values(|a: Answer| a@)
}

impl View for Answers {
    type V = AnswersView;

    closed spec fn view(&self) -> AnswersView {
        AnswersView { list: answer_views(self.list@) }
    }
}

impl Answers {
    #[verifier::type_invariant]
    spec fn inv(self) -> bool {
        self@.wf()
    }

    /// A collection that holds nothing.
    pub fn new() -> (answers: Answers)
        ensures
            answers@ == AnswersView::empty(),
            answers@.wf(),
    {
        let answers = Answers { list: Vec::new() };
        assert(answers@.list =~= Seq::empty());
        answers
    }

    /// The number of answers.
    pub fn len(&self) -> (n: usize)
        ensures
            self@.wf(),
            n == self@.list.len(),
    {
        proof {
            use_type_invariant(self);
        }
        self.list.len()
    }

    /// The answers in the order in which they were added.
    pub fn get(&self) -> (list: Vec<Answer>)
        ensures
            self@.wf(),
            answer_views(list@) == self@.list,
    {
        proof {
            use_type_invariant(self);
        }
        let mut list: Vec<Answer> = Vec::new();
        let mut i: usize = 0;
        while i < self.list.len()
            invariant
                i <= self.list.len(),
                answer_views(list@) =~= answer_views(self.list@).subrange(0, i as int),
            decreases self.list.len() - i,
        {
            let ghost before = list@;
            let copy = self.list[i].clone();
            list.push(copy);
            proof {
                let want = answer_views(self.list@).subrange(0, i + 1);
                assert(answer_views(before).len() == before.len());
                assert forall|k: int| 0 <= k < list@.len() implies answer_views(list@)[k]
                    == want[k] by {}
            }
            i += 1;
        }
        list
    }

    /// Takes the list out of the collection, which is left without answers
    /// until the list is put back.
    fn take_list(&mut self) -> (list: Vec<Answer>)
        ensures
            list@ == old(self).list@,
            final(self).list@ == Seq::<Answer>::empty(),
    {
        proof {
            use_type_invariant(&*self);
        }
        let mut list: Vec<Answer> = Vec::new();
        std::mem::swap(&mut self.list, &mut list);
        list
    }

    /// Adds `new_answer` and returns the stored record. Its id is the number
    /// of answers that the collection held before. Whether the question that
    /// it names is anywhere is not looked at. Fails, and changes nothing,
    /// only when every id has been given out.
    pub fn add(&mut self, new_answer: NewAnswer) -> (r: Result<Answer, Error>)
        ensures
            final(self)@.wf(),
            final(self)@ == old(self)@.add(new_answer@),
            r is Err <==> old(self)@.full(),
            r matches Err(e) ==> e == Error::DatabaseQueryError && final(self)@ == old(self)@,
            r matches Ok(a) ==> {
                &&& a@ == new_answer@.with_id(old(self)@.list.len() as int)
                &&& final(self)@.list == old(self)@.list.push(a@)
                &&& forall|i: int|
                    0 <= i < old(self)@.list.len() ==> (#[trigger] old(self)@.list[i]).id != a@.id
            },
    {
        proof {
            use_type_invariant(&*self);
        }
        if self.list.len() > i32::MAX as usize {
            return Err(Error::DatabaseQueryError);
        }
        let answer = Answer {
            id: AnswerId(self.list.len() as i32),
            content: new_answer.content,
            question_id: new_answer.question_id,
        };
        let stored = answer.clone();
        let mut list = self.take_list();
        list.push(answer);
        proof {
            let want = old(self)@.add(new_answer@).list;
            assert(answer_views(list@) =~= want);
        }
        self.list = list;
        Ok(stored)
    }
}

} // verus!
