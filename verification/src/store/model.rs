//! The store as a mathematical value: what each of its two collections
//! holds, and what each operation makes of it.

use crate::error::Error;
use crate::types::answer::{AnswerView, NewAnswerView};
use crate::types::question::{NewQuestionView, QuestionView};
use vstd::prelude::*;

verus! {

/// What the collection of questions holds: the questions in the order in
/// which they were added, and the id that the next question gets.
pub struct QuestionsView {
    pub list: Seq<QuestionView>,
    pub next_id: int,
}

/// What the collection of answers holds: the answers in the order in which
/// they were added.
pub struct AnswersView {
    pub list: Seq<AnswerView>,
}

/// What a store holds: its two collections. Neither refers to the other.
pub struct StoreView {
    pub questions: QuestionsView,
    pub answers: AnswersView,
}

impl QuestionsView {
    /// The collection that holds nothing. Its first question gets the id 1.
    pub open spec fn empty() -> QuestionsView {
        QuestionsView { list: Seq::empty(), next_id: 1 }
    }

    /// The collection that holds the questions of `list` under the ids that
    /// they have. Its next id follows the id of the last.
    pub open spec fn holding(list: Seq<QuestionView>) -> QuestionsView {
        QuestionsView {
            list,
            next_id: if list.len() == 0 {
                1
            } else {
                list.last().id + 1
            },
        }
    }

    /// What holds of every collection of questions: the ids grow along the
    /// list and lie below the next id, which is never given out twice.
    pub open spec fn wf(self) -> bool {
        &&& 1 <= self.next_id <= i32::MAX + 1
        &&& forall|i: int| 0 <= i < self.list.len() ==> 1 <= (#[trigger] self.list[i]).id
            < self.next_id
        &&& forall|i: int, j: int|
            0 <= i < j < self.list.len() ==> (#[trigger] self.list[i]).id
                < (#[trigger] self.list[j]).id
    }

    /// A question with the id `id` is in the collection.
    pub open spec fn has(self, id: int) -> bool {
        exists|i: int| 0 <= i < self.list.len() && (#[trigger] self.list[i]).id == id
    }

    /// The place of the question with the id `id`, where there is one.
    pub open spec fn index_of(self, id: int) -> int {
        choose|i: int| 0 <= i < self.list.len() && (#[trigger] self.list[i]).id == id
    }

    /// The questions from place `offset` on, `limit` of them at most, or all
    /// that are left where no limit is set. Past the end there are none.
    pub open spec fn page(self, limit: Option<int>, offset: int) -> Seq<QuestionView> {
        let len = self.list.len() as int;
        let start = if offset < len {
            offset
        } else {
            len
        };
        let end = match limit {
            Some(l) => if start + l < len {
                start + l
            } else {
                len
            },
            None => len,
        };
        self.list.subrange(start, end)
    }

    /// What a listing gives: a negative limit or offset is turned down, as a
    /// relational store turns it down; everything else gives a page.
    pub open spec fn get(self, limit: Option<int>, offset: int) -> Result<
        Seq<QuestionView>,
        Error,
    > {
        if offset < 0 || (limit matches Some(l) && l < 0) {
            Err(Error::DatabaseQueryError)
        } else {
            Ok(self.page(limit, offset))
        }
    }

    /// No id is left for another question.
    pub open spec fn full(self) -> bool {
        self.next_id > i32::MAX
    }

    /// The collection after a call to add `question`: it stands at the end of
    /// the list under the next id. A collection without a free id stays as it
    /// is.
    pub open spec fn add(self, question: NewQuestionView) -> QuestionsView {
        if self.full() {
            self
        } else {
            QuestionsView {
                list: self.list.push(question.with_id(self.next_id)),
                next_id: self.next_id + 1,
            }
        }
    }

    /// The collection after a call to replace the question with the id `id`
    /// by `question`: the new record has the id `id` and the place of the old
    /// one. A collection without such a question stays as it is.
    pub open spec fn update(self, question: QuestionView, id: int) -> QuestionsView {
        if self.has(id) {
            QuestionsView {
                list: self.list.update(self.index_of(id), QuestionView { id, ..question }),
                ..self
            }
        } else {
            self
        }
    }

    /// The collection after a call to delete the question with the id `id`.
    /// A collection without such a question stays as it is.
    pub open spec fn delete(self, id: int) -> QuestionsView {
        if self.has(id) {
            QuestionsView { list: self.list.remove(self.index_of(id)), ..self }
        } else {
            self
        }
    }
}

impl AnswersView {
    /// The collection that holds nothing.
    pub open spec fn empty() -> AnswersView {
        AnswersView { list: Seq::empty() }
    }

    /// What holds of every collection of answers: the id of an answer is its
    /// place in the list.
    pub open spec fn wf(self) -> bool {
        &&& self.list.len() <= i32::MAX + 1
        &&& forall|i: int| 0 <= i < self.list.len() ==> (#[trigger] self.list[i]).id == i
    }

    /// No id is left for another answer.
    pub open spec fn full(self) -> bool {
        self.list.len() > i32::MAX
    }

    /// The collection after a call to add `answer`: it stands at the end of
    /// the list, and its id is the number of answers before it. A collection
    /// without a free id stays as it is.
    pub open spec fn add(self, answer: NewAnswerView) -> AnswersView {
        if self.full() {
            self
        } else {
            AnswersView { list: self.list.push(answer.with_id(self.list.len() as int)) }
        }
    }

    /// The collection after one call to add an answer for each member of
    /// `batch`, in the order of `batch`.
    pub open spec fn add_all(self, batch: Seq<NewAnswerView>) -> AnswersView
        decreases batch.len(),
    {
        if batch.len() == 0 {
            self
        } else {
            self.add_all(batch.drop_last()).add(batch.last())
        }
    }
}

impl StoreView {
    /// The store that holds nothing.
    pub open spec fn empty() -> StoreView {
        StoreView { questions: QuestionsView::empty(), answers: AnswersView::empty() }
    }

    /// What holds of every store: what holds of each of its collections.
    pub open spec fn wf(self) -> bool {
        self.questions.wf() && self.answers.wf()
    }

    /// The store after a call to add `question`; the answers stay.
    pub open spec fn add_question(self, question: NewQuestionView) -> StoreView {
        StoreView { questions: self.questions.add(question), ..self }
    }

    /// The store after a call to replace the question with the id `id`; the
    /// answers stay.
    pub open spec fn update_question(self, question: QuestionView, id: int) -> StoreView {
        StoreView { questions: self.questions.update(question, id), ..self }
    }

    /// The store after a call to delete the question with the id `id`; the
    /// answers stay, those to the deleted question too.
    pub open spec fn delete_question(self, id: int) -> StoreView {
        StoreView { questions: self.questions.delete(id), ..self }
    }

    /// The store after a call to add `answer`; the questions stay.
    pub open spec fn add_answer(self, answer: NewAnswerView) -> StoreView {
        StoreView { answers: self.answers.add(answer), ..self }
    }
}

/// No two questions share an id.
pub proof fn lemma_question_ids_distinct(s: QuestionsView)
    requires
        s.wf(),
    ensures
        forall|i: int, j: int|
            0 <= i < s.list.len() && 0 <= j < s.list.len() && i != j ==> (#[trigger] s.list[i]).id
                != (#[trigger] s.list[j]).id,
{
    assert forall|i: int, j: int|
        0 <= i < s.list.len() && 0 <= j < s.list.len() && i != j implies (#[trigger] s.list[i]).id
        != (#[trigger] s.list[j]).id by {
        // one of the two stands before the other, and ids grow along the list
        if j < i {
            assert(s.list[j].id < s.list[i].id);
        }
    }
}

/// The place that `index_of` gives for the id of a stored question is the
/// place of that question.
pub proof fn lemma_index_of(s: QuestionsView, i: int)
    requires
        s.wf(),
        0 <= i < s.list.len(),
    ensures
        s.has(s.list[i].id),
        s.index_of(s.list[i].id) == i,
{
    lemma_question_ids_distinct(s);
}

/// Replacing a question leaves the collection well formed.
pub proof fn lemma_update_keeps_wf(s: QuestionsView, question: QuestionView, id: int)
    requires
        s.wf(),
    ensures
        s.update(question, id).wf(),
{
    if s.has(id) {
        let updated = s.update(question, id);
        assert forall|i: int, j: int| 0 <= i < j < updated.list.len() implies (
        #[trigger] updated.list[i]).id < (#[trigger] updated.list[j]).id by {}
    }
}

/// A page is no longer than its limit, holds all that is left from `offset`
/// on where no limit is set or the limit is not reached, and starts at place
/// `offset`: its member at place `i` is the question at place `offset + i` of
/// the collection.
pub proof fn lemma_page_shape(s: QuestionsView, limit: Option<int>, offset: int)
    requires
        offset >= 0,
        limit matches Some(l) ==> l >= 0,
    ensures
        s.get(limit, offset) == Ok::<Seq<QuestionView>, Error>(s.page(limit, offset)),
        limit matches Some(l) ==> s.page(limit, offset).len() <= l,
        s.page(limit, offset).len() == {
            let left = if offset <= s.list.len() {
                s.list.len() - offset
            } else {
                0
            };
            match limit {
                Some(l) if l < left => l,
                _ => left,
            }
        },
        forall|i: int|
            0 <= i < s.page(limit, offset).len() ==> offset + i < s.list.len() && (
            #[trigger] s.page(limit, offset)[i]) == s.list[offset + i],
{
}

/// Updating twice with the same record and id leaves the collection as
/// updating once does.
pub proof fn lemma_update_idempotent(s: QuestionsView, question: QuestionView, id: int)
    requires
        s.wf(),
    ensures
        s.update(question, id).update(question, id) == s.update(question, id),
        s.update(question, id).has(id) == s.has(id),
{
    let once = s.update(question, id);
    if s.has(id) {
        let k = s.index_of(id);
        lemma_update_keeps_wf(s, question, id);
        lemma_index_of(once, k);
        assert(once.update(question, id).list =~= once.list);
    }
}

/// Deleting an id that no question has changes nothing, and after a
/// question was deleted no question has its id.
pub proof fn lemma_delete(s: QuestionsView, id: int)
    requires
        s.wf(),
    ensures
        !s.has(id) ==> s.delete(id) == s,
        !s.delete(id).has(id),
        s.has(id) ==> s.delete(id).list.len() == s.list.len() - 1,
{
    if s.has(id) {
        let k = s.index_of(id);
        let deleted = s.delete(id);
        lemma_question_ids_distinct(s);
        if deleted.has(id) {
            // the place in `s` of what `deleted` still holds under the id
            let i = deleted.index_of(id);
            let si = if i < k { i } else { i + 1 };
            assert(deleted.list[i] == s.list[si]);
        }
    }
}

/// Adding a batch of answers, in whatever order the calls arrive, loses
/// nothing while ids are left: no call finds the collection full, every call
/// adds one answer behind those that were there, which stay as they were, and
/// the new answers get one id each, counted on from the number of answers
/// before, so that no two answers share an id.
pub proof fn lemma_add_all(s: AnswersView, batch: Seq<NewAnswerView>)
    requires
        s.wf(),
        s.list.len() + batch.len() <= i32::MAX + 1,
    ensures
        s.add_all(batch).wf(),
        forall|k: int| 0 <= k < batch.len() ==> !(#[trigger] s.add_all(batch.take(k))).full(),
        s.add_all(batch).list.len() == s.list.len() + batch.len(),
        s.add_all(batch).list.subrange(0, s.list.len() as int) == s.list,
        forall|i: int|
            0 <= i < batch.len() ==> (#[trigger] s.add_all(batch).list[s.list.len() + i])
                == batch[i].with_id(s.list.len() + i),
        forall|i: int, j: int|
            0 <= i < s.add_all(batch).list.len() && 0 <= j < s.add_all(batch).list.len() && i != j
                ==> (#[trigger] s.add_all(batch).list[i]).id != (#[trigger] s.add_all(
                batch,
            ).list[j]).id,
    decreases batch.len(),
{
    if batch.len() > 0 {
        let head = batch.drop_last();
        lemma_add_all(s, head);
        let mid = s.add_all(head);
        let end = s.add_all(batch);
        assert(end.list.subrange(0, s.list.len() as int) =~= mid.list.subrange(
            0,
            s.list.len() as int,
        ));
        assert forall|i: int| 0 <= i < batch.len() implies (#[trigger] end.list[s.list.len() + i])
            == batch[i].with_id(s.list.len() + i) by {
            if i < head.len() {
                assert(head[i] == batch[i]);
            }
        }
        assert forall|k: int| 0 <= k < batch.len() implies !(#[trigger] s.add_all(
            batch.take(k),
        )).full() by {
            if k < head.len() {
                assert(batch.take(k) =~= head.take(k));
            } else {
                assert(batch.take(k) =~= head);
            }
        }
    }
}

} // verus!
