use qa_service::error::Error;
use qa_service::store::answers::Answers;
use qa_service::store::questions::Questions;
use qa_service::store::Store;
use qa_service::types::answer::{Answer, AnswerId, NewAnswer};
use qa_service::types::question::{NewQuestion, Question, QuestionId};

fn new_question(title: &str) -> NewQuestion {
    NewQuestion {
        title: title.to_string(),
        content: format!("content of {}", title),
        tags: Some(vec!["faq".to_string(), title.to_string()]),
    }
}

fn store_with(n: usize) -> Store {
    let mut store = Store::new();
    for i in 0..n {
        store.add_question(new_question(&format!("q{}", i + 1))).unwrap();
    }
    store
}

fn titles(list: &[Question]) -> Vec<String> {
    list.iter().map(|q| q.title.clone()).collect()
}

fn ids(list: &[Question]) -> Vec<i32> {
    list.iter().map(|q| q.id.0).collect()
}

fn snapshot(store: &Store) -> (Vec<(i32, String, String, Option<Vec<String>>)>, Vec<(i32, String, i32)>) {
    let questions = store
        .get_questions(None, 0)
        .unwrap()
        .into_iter()
        .map(|q| (q.id.0, q.title, q.content, q.tags))
        .collect();
    let answers = store
        .get_answers()
        .into_iter()
        .map(|a| (a.id.0, a.content, a.question_id.0))
        .collect();
    (questions, answers)
}

#[test]
fn a_new_store_is_empty() {
    let store = Store::new();
    assert_eq!(store.question_count(), 0);
    assert_eq!(store.answer_count(), 0);
    assert!(store.get_questions(None, 0).unwrap().is_empty());
    assert!(store.get_answers().is_empty());
}

#[test]
fn add_question_assigns_ids_from_one_and_returns_the_record() {
    let mut store = Store::new();
    let first = store.add_question(new_question("a")).unwrap();
    assert_eq!(first.id, QuestionId(1));
    assert_eq!(first.title, "a");
    assert_eq!(first.content, "content of a");
    assert_eq!(first.tags, Some(vec!["faq".to_string(), "a".to_string()]));
    let second = store
        .add_question(NewQuestion { title: "b".to_string(), content: "c".to_string(), tags: None })
        .unwrap();
    assert_eq!(second.id, QuestionId(2));
    assert_eq!(second.tags, None);
    assert_eq!(store.question_count(), 2);
    let all = store.get_questions(None, 0).unwrap();
    assert_eq!(ids(&all), vec![1, 2]);
    assert_eq!(titles(&all), vec!["a", "b"]);
    assert_eq!(all[0].content, "content of a");
    assert_eq!(all[0].tags, Some(vec!["faq".to_string(), "a".to_string()]));
    assert_eq!(all[1].tags, None);
}

#[test]
fn get_questions_skips_offset_and_returns_at_most_limit() {
    let store = store_with(5);
    assert_eq!(ids(&store.get_questions(Some(2), 1).unwrap()), vec![2, 3]);
    assert_eq!(ids(&store.get_questions(Some(2), 0).unwrap()), vec![1, 2]);
    assert_eq!(ids(&store.get_questions(Some(5), 0).unwrap()), vec![1, 2, 3, 4, 5]);
    assert_eq!(ids(&store.get_questions(Some(0), 2).unwrap()), Vec::<i32>::new());
    assert_eq!(ids(&store.get_questions(Some(1), 4).unwrap()), vec![5]);
}

#[test]
fn get_questions_without_limit_returns_the_remainder() {
    let store = store_with(5);
    assert_eq!(ids(&store.get_questions(None, 0).unwrap()), vec![1, 2, 3, 4, 5]);
    assert_eq!(ids(&store.get_questions(None, 3).unwrap()), vec![4, 5]);
    assert_eq!(ids(&store.get_questions(None, 5).unwrap()), Vec::<i32>::new());
}

#[test]
fn get_questions_past_the_end_is_short_or_empty_and_no_failure() {
    let store = store_with(3);
    assert_eq!(ids(&store.get_questions(Some(10), 1).unwrap()), vec![2, 3]);
    assert_eq!(ids(&store.get_questions(Some(10), 3).unwrap()), Vec::<i32>::new());
    assert_eq!(ids(&store.get_questions(Some(10), 7).unwrap()), Vec::<i32>::new());
    assert_eq!(ids(&store.get_questions(None, i32::MAX).unwrap()), Vec::<i32>::new());
    assert_eq!(ids(&store.get_questions(Some(i32::MAX), i32::MAX).unwrap()), Vec::<i32>::new());
    assert_eq!(ids(&store.get_questions(Some(i32::MAX), 0).unwrap()), vec![1, 2, 3]);
}

#[test]
fn get_questions_turns_down_a_negative_limit_or_offset() {
    let store = store_with(3);
    assert_eq!(store.get_questions(Some(-1), 0).unwrap_err(), Error::DatabaseQueryError);
    assert_eq!(store.get_questions(Some(1), -1).unwrap_err(), Error::DatabaseQueryError);
    assert_eq!(store.get_questions(None, -1).unwrap_err(), Error::DatabaseQueryError);
    assert_eq!(store.get_questions(Some(i32::MIN), i32::MIN).unwrap_err(), Error::DatabaseQueryError);
}

#[test]
fn every_page_has_the_promised_length_and_start() {
    let store = store_with(4);
    let all = ids(&store.get_questions(None, 0).unwrap());
    for offset in 0..7usize {
        let rest = all.len().saturating_sub(offset);
        let page = ids(&store.get_questions(None, offset as i32).unwrap());
        assert_eq!(page.len(), rest);
        for limit in 0..7usize {
            let page = ids(&store.get_questions(Some(limit as i32), offset as i32).unwrap());
            assert!(page.len() <= limit);
            assert_eq!(page.len(), limit.min(rest));
            for (i, id) in page.iter().enumerate() {
                assert_eq!(*id, all[offset + i]);
            }
        }
    }
}

#[test]
fn update_question_replaces_the_record_in_place() {
    let mut store = store_with(3);
    let replacement = Question {
        id: QuestionId(77),
        title: "new title".to_string(),
        content: "new content".to_string(),
        tags: None,
    };
    let stored = store.update_question(replacement, 2).unwrap();
    assert_eq!(stored.id, QuestionId(2));
    assert_eq!(stored.title, "new title");
    assert_eq!(stored.content, "new content");
    assert_eq!(stored.tags, None);
    let all = store.get_questions(None, 0).unwrap();
    assert_eq!(ids(&all), vec![1, 2, 3]);
    assert_eq!(titles(&all), vec!["q1", "new title", "q3"]);
    assert_eq!(all[1].content, "new content");
    assert_eq!(all[1].tags, None);
}

#[test]
fn update_question_of_an_absent_id_fails_and_changes_nothing() {
    let mut store = store_with(2);
    let before = snapshot(&store);
    let replacement = Question {
        id: QuestionId(99),
        title: "t".to_string(),
        content: "c".to_string(),
        tags: None,
    };
    assert_eq!(store.update_question(replacement, 99).unwrap_err(), Error::QuestionNotFound);
    assert_eq!(snapshot(&store), before);
}

#[test]
fn updating_twice_is_updating_once() {
    let mut once = store_with(3);
    let mut twice = store_with(3);
    let replacement = || Question {
        id: QuestionId(2),
        title: "again".to_string(),
        content: "and again".to_string(),
        tags: Some(vec!["x".to_string()]),
    };
    once.update_question(replacement(), 2).unwrap();
    let first = twice.update_question(replacement(), 2).unwrap();
    let second = twice.update_question(replacement(), 2).unwrap();
    assert_eq!(first.id, second.id);
    assert_eq!(first.title, second.title);
    assert_eq!(snapshot(&once), snapshot(&twice));
}

#[test]
fn delete_question_takes_the_record_out() {
    let mut store = store_with(3);
    assert_eq!(store.delete_question(2), Ok(()));
    assert_eq!(store.question_count(), 2);
    assert_eq!(ids(&store.get_questions(None, 0).unwrap()), vec![1, 3]);
    assert_eq!(store.delete_question(2), Err(Error::QuestionNotFound));
    assert_eq!(store.delete_question(1), Ok(()));
    assert_eq!(store.delete_question(3), Ok(()));
    assert_eq!(store.question_count(), 0);
}

#[test]
fn delete_question_of_an_absent_id_fails_and_changes_nothing() {
    let mut store = store_with(3);
    store.add_answer(NewAnswer { content: "a".to_string(), question_id: QuestionId(1) }).unwrap();
    let before = snapshot(&store);
    for id in [0, -1, 4, 99, i32::MAX, i32::MIN] {
        assert_eq!(store.delete_question(id), Err(Error::QuestionNotFound));
        assert_eq!(snapshot(&store), before);
    }
    let mut empty = Store::new();
    assert_eq!(empty.delete_question(1), Err(Error::QuestionNotFound));
    assert_eq!(empty.question_count(), 0);
}

#[test]
fn a_deleted_id_is_not_given_out_again() {
    let mut store = store_with(3);
    store.delete_question(3).unwrap();
    let next = store.add_question(new_question("later")).unwrap();
    assert_eq!(next.id, QuestionId(4));
    assert_eq!(ids(&store.get_questions(None, 0).unwrap()), vec![1, 2, 4]);
}

#[test]
fn add_answer_counts_ids_from_zero() {
    let mut store = Store::new();
    let first = store
        .add_answer(NewAnswer { content: "yes".to_string(), question_id: QuestionId(1) })
        .unwrap();
    assert_eq!(first.id, AnswerId(0));
    assert_eq!(first.content, "yes");
    assert_eq!(first.question_id, QuestionId(1));
    let second = store
        .add_answer(NewAnswer { content: "no".to_string(), question_id: QuestionId(1) })
        .unwrap();
    assert_eq!(second.id, AnswerId(1));
    assert_eq!(store.answer_count(), 2);
    let all: Vec<Answer> = store.get_answers();
    assert_eq!(all[0].content, "yes");
    assert_eq!(all[1].content, "no");
    assert_eq!(all[1].id, AnswerId(1));
}

#[test]
fn add_answer_does_not_look_for_the_question() {
    let mut store = Store::new();
    let answer = store
        .add_answer(NewAnswer { content: "to nobody".to_string(), question_id: QuestionId(42) })
        .unwrap();
    assert_eq!(answer.question_id, QuestionId(42));
    assert_eq!(store.question_count(), 0);
}

#[test]
fn an_answer_outlives_its_question() {
    let mut store = store_with(1);
    store.add_answer(NewAnswer { content: "a".to_string(), question_id: QuestionId(1) }).unwrap();
    store.delete_question(1).unwrap();
    assert_eq!(store.answer_count(), 1);
    assert_eq!(store.get_answers()[0].question_id, QuestionId(1));
}

#[test]
fn many_callers_get_distinct_answer_ids_and_nothing_is_lost() {
    let mut store = Store::new();
    let mut given = Vec::new();
    // Eight callers with 25 calls each, their calls arriving interleaved.
    for turn in 0..200 {
        let caller = (turn * 5) % 8;
        let answer = store
            .add_answer(NewAnswer {
                content: format!("{}-{}", caller, turn),
                question_id: QuestionId(caller),
            })
            .unwrap();
        given.push((answer.id.0, answer.content));
    }
    assert_eq!(given.len(), 200);
    let mut seen: Vec<i32> = given.iter().map(|(id, _)| *id).collect();
    seen.sort();
    seen.dedup();
    assert_eq!(seen.len(), 200);
    assert_eq!(store.answer_count(), 200);
    let stored = store.get_answers();
    for (id, content) in given {
        assert_eq!(stored[id as usize].id, AnswerId(id));
        assert_eq!(stored[id as usize].content, content);
    }
}

#[test]
fn a_collection_of_questions_stands_by_itself() {
    let mut questions = Questions::new();
    assert_eq!(questions.len(), 0);
    let first = questions.add(new_question("a")).unwrap();
    let second = questions.add(new_question("b")).unwrap();
    assert_eq!((first.id, second.id), (QuestionId(1), QuestionId(2)));
    assert_eq!(ids(&questions.get(Some(1), 1).unwrap()), vec![2]);
    assert_eq!(questions.get(Some(-1), 0).unwrap_err(), Error::DatabaseQueryError);
    let changed = Question {
        id: QuestionId(0),
        title: "c".to_string(),
        content: "d".to_string(),
        tags: None,
    };
    assert_eq!(questions.update(changed, 1).unwrap().id, QuestionId(1));
    assert_eq!(titles(&questions.get(None, 0).unwrap()), vec!["c", "b"]);
    assert_eq!(questions.delete(1), Ok(()));
    assert_eq!(questions.delete(1), Err(Error::QuestionNotFound));
    assert_eq!(questions.len(), 1);
}

#[test]
fn a_collection_of_answers_stands_by_itself() {
    let mut answers = Answers::new();
    assert_eq!(answers.len(), 0);
    assert!(answers.get().is_empty());
    let first = answers
        .add(NewAnswer { content: "x".to_string(), question_id: QuestionId(9) })
        .unwrap();
    let second = answers
        .add(NewAnswer { content: "y".to_string(), question_id: QuestionId(9) })
        .unwrap();
    assert_eq!((first.id, second.id), (AnswerId(0), AnswerId(1)));
    assert_eq!(answers.len(), 2);
    let all = answers.get();
    assert_eq!(all[0].content, "x");
    assert_eq!(all[1].content, "y");
    assert_eq!(all[1].question_id, QuestionId(9));
}

fn question(id: i32) -> Question {
    Question {
        id: QuestionId(id),
        title: format!("t{}", id),
        content: format!("c{}", id),
        tags: None,
    }
}

#[test]
fn questions_that_have_ids_are_held_under_them() {
    let mut questions = Questions::from_list(vec![question(1), question(2), question(5)]).unwrap();
    assert_eq!(questions.len(), 3);
    assert_eq!(ids(&questions.get(None, 0).unwrap()), vec![1, 2, 5]);
    assert_eq!(titles(&questions.get(None, 0).unwrap()), vec!["t1", "t2", "t5"]);
    let next = questions.add(new_question("later")).unwrap();
    assert_eq!(next.id, QuestionId(6));
    assert_eq!(questions.delete(2), Ok(()));
    assert_eq!(ids(&questions.get(None, 0).unwrap()), vec![1, 5, 6]);
}

#[test]
fn no_questions_are_held_as_by_a_new_collection() {
    let mut questions = Questions::from_list(Vec::new()).unwrap();
    assert_eq!(questions.len(), 0);
    assert_eq!(questions.add(new_question("first")).unwrap().id, QuestionId(1));
}

#[test]
fn questions_whose_ids_do_not_grow_from_one_are_not_held() {
    assert!(Questions::from_list(vec![question(2), question(1)]).is_none());
    assert!(Questions::from_list(vec![question(1), question(1)]).is_none());
    assert!(Questions::from_list(vec![question(0)]).is_none());
    assert!(Questions::from_list(vec![question(-3), question(4)]).is_none());
    assert!(Questions::from_list(vec![question(1), question(3), question(2)]).is_none());
    assert!(Questions::from_list(vec![question(7)]).is_some());
}

#[test]
fn a_collection_that_holds_the_largest_id_is_full() {
    let mut questions = Questions::from_list(vec![question(3), question(i32::MAX)]).unwrap();
    assert_eq!(questions.add(new_question("one more")).unwrap_err(), Error::DatabaseQueryError);
    assert_eq!(questions.len(), 2);
    assert_eq!(ids(&questions.get(None, 0).unwrap()), vec![3, i32::MAX]);
}
