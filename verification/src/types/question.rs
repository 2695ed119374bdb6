//! Questions: the stored record, its id, and the record as a client sends it.

use vstd::prelude::*;

verus! {

/// The id of a question: the store assigns it, and no two stored questions
/// share one.
#[derive(Clone, Copy, Debug, PartialEq, Eq, Hash, Structural)]
pub struct QuestionId(pub i32);

/// A stored question.
#[derive(Debug)]
pub struct Question {
    pub id: QuestionId,
    pub title: String,
    pub content: String,
    pub tags: Option<Vec<String>>,
}

/// A question that has no id yet.
#[derive(Debug)]
pub struct NewQuestion {
    pub title: String,
    pub content: String,
    pub tags: Option<Vec<String>>,
}

/// What a list of tags holds.
pub open spec fn tags_view(tags: Option<Vec<String>>) -> Option<Seq<Seq<char>>> {
    match tags {
        Some(list) => Some(list.deep_view()),
        None => None,
    }
}

/// What a question holds.
pub struct QuestionView {
    pub id: int,
    pub title: Seq<char>,
    pub content: Seq<char>,
    pub tags: Option<Seq<Seq<char>>>,
}

/// What a question without an id holds.
pub struct NewQuestionView {
    pub title: Seq<char>,
    pub content: Seq<char>,
    pub tags: Option<Seq<Seq<char>>>,
}

impl NewQuestionView {
    /// The question that this becomes under the id `id`.
    pub open spec fn with_id(self, id: int) -> QuestionView {
        QuestionView { id, title: self.title, content: self.content, tags: self.tags }
    }
}

impl View for Question {
    type V = QuestionView;

    open spec fn view(&self) -> QuestionView {
        QuestionView {
            id: self.id.0 as int,
            title: self.title@,
            content: self.content@,
            tags: tags_view(self.tags),
        }
    }
}

impl View for NewQuestion {
    type V = NewQuestionView;

    open spec fn view(&self) -> NewQuestionView {
        NewQuestionView { title: self.title@, content: self.content@, tags: tags_view(self.tags) }
    }
}

/// A copy of a list of tags.
pub fn clone_tags(tags: &Option<Vec<String>>) -> (res: Option<Vec<String>>)
    ensures
        tags_view(res) == tags_view(*tags),
{
    match tags {
        Some(list) => Some(list.clone()),
        None => None,
    }
}

impl Clone for Question {
    fn clone(&self) -> (res: Self)
        ensures
            res@ == self@,
    {
        Question {
            id: self.id,
            title: self.title.clone(),
            content: self.content.clone(),
            tags: clone_tags(&self.tags),
        }
    }
}

impl Clone for NewQuestion {
    fn clone(&self) -> (res: Self)
        ensures
            res@ == self@,
    {
        NewQuestion {
            title: self.title.clone(),
            content: self.content.clone(),
            tags: clone_tags(&self.tags),
        }
    }
}

} // verus!
