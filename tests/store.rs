use blog_api::{
    deletion_outcome, from_database, ApiError, NewQuestion, Question, QuestionId, Store,
};

fn new_question(title: &str) -> NewQuestion {
    NewQuestion {
        title: title.to_string(),
        content: format!("content of {}", title),
        tags: Some(vec!["faq".to_string()]),
    }
}

fn store_with(titles: &[&str]) -> Store {
    let mut s = Store::new();
    for t in titles {
        s.add_question(new_question(t)).unwrap();
    }
    s
}

fn titles(qs: &[Question]) -> Vec<String> {
    qs.iter().map(|q| q.title.clone()).collect()
}

#[test]
fn list_length_follows_limit_and_offset() {
    let s = store_with(&["a", "b", "c", "d", "e"]);
    let total: u32 = 5;
    for offset in 0..8u32 {
        for limit in 0..8u32 {
            let got = s.get_questions(Some(limit), offset);
            let remaining = total.saturating_sub(offset);
            assert_eq!(got.len() as u32, limit.min(remaining));
        }
        let got = s.get_questions(None, offset);
        assert_eq!(got.len() as u32, total.saturating_sub(offset));
    }
}

#[test]
fn list_keeps_insertion_order() {
    let s = store_with(&["a", "b", "c", "d"]);
    assert_eq!(titles(&s.get_questions(Some(2), 1)), vec!["b", "c"]);
    assert_eq!(titles(&s.get_questions(None, 0)), vec!["a", "b", "c", "d"]);
}

#[test]
fn list_offset_beyond_end_is_empty() {
    let s = store_with(&["a", "b"]);
    assert!(s.get_questions(None, 2).is_empty());
    assert!(s.get_questions(Some(10), 100).is_empty());
    assert!(Store::new().get_questions(None, 0).is_empty());
}

#[test]
fn add_assigns_fresh_ids() {
    let mut s = Store::new();
    let a = s.add_question(new_question("a")).unwrap();
    let b = s.add_question(new_question("b")).unwrap();
    assert_eq!(a.id.as_str(), "0");
    assert_eq!(b.id.as_str(), "1");
    assert_eq!(a.title, "a");
    assert_eq!(a.content, "content of a");
    assert_eq!(a.tags, Some(vec!["faq".to_string()]));
    s.delete_question(&a.id).unwrap();
    let c = s.add_question(new_question("c")).unwrap();
    assert_eq!(c.id.as_str(), "2");
}

#[test]
fn update_missing_id_fails() {
    let mut s = store_with(&["a"]);
    let id = QuestionId::new("7".to_string()).unwrap();
    let q = Question {
        id: id.clone(),
        title: "t".to_string(),
        content: "c".to_string(),
        tags: None,
    };
    assert!(matches!(s.update_question(q, &id), Err(ApiError::QuestionNotFound)));
    assert_eq!(titles(&s.get_questions(None, 0)), vec!["a"]);
}

#[test]
fn update_replaces_fields_and_keeps_id() {
    let mut s = store_with(&["a", "b"]);
    let id = QuestionId::new("1".to_string()).unwrap();
    let q = Question {
        id: QuestionId::new("99".to_string()).unwrap(),
        title: "new".to_string(),
        content: "changed".to_string(),
        tags: None,
    };
    let r = s.update_question(q, &id).unwrap();
    assert_eq!(r.id.as_str(), "1");
    assert_eq!(r.title, "new");
    assert_eq!(r.content, "changed");
    assert_eq!(r.tags, None);
    let all = s.get_questions(None, 0);
    assert_eq!(titles(&all), vec!["a", "new"]);
    assert_eq!(all[1].id.as_str(), "1");
}

#[test]
fn delete_twice_fails() {
    let mut s = store_with(&["a", "b"]);
    let id = QuestionId::new("0".to_string()).unwrap();
    assert!(s.delete_question(&id).is_ok());
    assert!(matches!(s.delete_question(&id), Err(ApiError::QuestionNotFound)));
    assert_eq!(titles(&s.get_questions(None, 0)), vec!["b"]);
}

#[test]
fn question_id_rejects_empty_text() {
    assert!(QuestionId::new(String::new()).is_none());
    assert_eq!(QuestionId::new("x".to_string()).unwrap().as_str(), "x");
}

#[test]
fn add_answer_assigns_fresh_ids() {
    let mut s = store_with(&["a"]);
    let q = QuestionId::new("0".to_string()).unwrap();
    let a = s.add_answer(q.clone(), "yes".to_string()).unwrap();
    let b = s.add_answer(q, "no".to_string()).unwrap();
    assert_eq!(a.id.0, "0");
    assert_eq!(b.id.0, "1");
    assert_eq!(b.question_id.as_str(), "0");
    assert_eq!(b.content, "no");
}

#[test]
fn database_failures_are_one_kind() {
    let ok: Result<u8, String> = Ok(3);
    assert_eq!(from_database(ok).unwrap(), 3);
    let failed: Result<u8, String> = Err("connection reset".to_string());
    assert!(matches!(from_database(failed), Err(ApiError::DatabaseQueryError)));
}

#[test]
fn database_delete_of_no_row_is_not_found() {
    assert!(matches!(deletion_outcome::<()>(Ok(0)), Err(ApiError::QuestionNotFound)));
    assert!(deletion_outcome::<()>(Ok(1)).is_ok());
    assert!(matches!(deletion_outcome(Err(())), Err(ApiError::DatabaseQueryError)));
}

#[test]
fn database_keys() {
    assert_eq!(blog_api::database_key("42").unwrap(), 42);
    assert!(matches!(blog_api::database_key("abc"), Err(ApiError::QuestionNotFound)));
    assert!(matches!(blog_api::database_key("-1"), Err(ApiError::QuestionNotFound)));
    assert_eq!(blog_api::deleted_message("7"), "question 7 deleted");
}
