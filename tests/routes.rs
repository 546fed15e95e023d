use blog_api::{
    add_anwer, add_question, delete_question, get_questions, handle_errors, update_question,
    ApiError, ApiLayerError, GatewayResponse, NewQuestion, Params, Question, QuestionId,
    Rejection, Store,
};

fn params(pairs: &[(&str, &str)]) -> Params {
    let mut p = Params::new();
    for (k, v) in pairs {
        p.insert(k.to_string(), v.to_string());
    }
    p
}

fn store_with(titles: &[&str]) -> Store {
    let mut s = Store::new();
    for t in titles {
        s.add_question(NewQuestion { title: t.to_string(), content: String::new(), tags: None })
            .unwrap();
    }
    s
}

fn titles(qs: &[Question]) -> Vec<String> {
    qs.iter().map(|q| q.title.clone()).collect()
}

#[test]
fn post_question_stores_censored_content() {
    let mut store = Store::new();
    let new_question = NewQuestion {
        title: "T".to_string(),
        content: "bad word".to_string(),
        tags: Some(vec!["faq".to_string()]),
    };
    let answer = Ok(GatewayResponse { status: 200, body: Ok("*** word".to_string()) });
    let q = add_question(&mut store, new_question, answer).unwrap();
    assert_eq!(q.content, "*** word");
    let all = get_questions(Params::new(), &store).unwrap();
    assert_eq!(all.len(), 1);
    assert_eq!(all[0].content, "*** word");
    assert_eq!(all[0].title, "T");
}

#[test]
fn get_with_limit_and_offset_lists_window() {
    let store = store_with(&["A", "B", "C"]);
    let r = get_questions(params(&[("limit", "2"), ("offset", "1")]), &store).unwrap();
    assert_eq!(titles(&r), vec!["B", "C"]);
}

#[test]
fn get_without_params_lists_all() {
    let store = store_with(&["A", "B", "C"]);
    assert_eq!(titles(&get_questions(Params::new(), &store).unwrap()), vec!["A", "B", "C"]);
}

#[test]
fn get_with_bad_params_fails() {
    let store = store_with(&["A"]);
    let r = get_questions(params(&[("limit", "2")]), &store);
    assert!(matches!(r, Err(ApiError::MissingParamError)));
    let r = get_questions(params(&[("limit", "two"), ("offset", "0")]), &store);
    assert!(matches!(r, Err(ApiError::ParseError(_))));
}

#[test]
fn delete_unknown_question_is_416() {
    let mut store = Store::new();
    let e = delete_question("999".to_string(), &mut store).unwrap_err();
    assert!(matches!(e, ApiError::QuestionNotFound));
    let reply = handle_errors(&Rejection::Api(e));
    assert_eq!(reply.status, 416);
    assert_eq!(reply.body, "question not found");
}

#[test]
fn delete_known_question_confirms() {
    let mut store = store_with(&["A", "B"]);
    assert_eq!(delete_question("0".to_string(), &mut store).unwrap(), "question 0 deleted");
    assert_eq!(titles(&get_questions(Params::new(), &store).unwrap()), vec!["B"]);
    assert!(matches!(delete_question(String::new(), &mut store), Err(ApiError::QuestionNotFound)));
}

#[test]
fn update_through_route() {
    let mut store = store_with(&["A"]);
    let q = Question {
        id: QuestionId::new("0".to_string()).unwrap(),
        title: "A2".to_string(),
        content: "c".to_string(),
        tags: None,
    };
    let r = update_question("0".to_string(), &mut store, q).unwrap();
    assert_eq!(r.title, "A2");
    let q = Question {
        id: QuestionId::new("5".to_string()).unwrap(),
        title: "X".to_string(),
        content: "c".to_string(),
        tags: None,
    };
    let r = update_question("5".to_string(), &mut store, q);
    assert!(matches!(r, Err(ApiError::QuestionNotFound)));
}

#[test]
fn add_answer_route() {
    let mut store = store_with(&["A"]);
    let a = add_anwer(&mut store, params(&[("relationId", "0"), ("content", "yes")])).unwrap();
    assert_eq!(a.question_id.as_str(), "0");
    assert_eq!(a.content, "yes");
    assert_eq!(a.id.0, "0");
    let r = add_anwer(&mut store, params(&[("content", "yes")]));
    assert!(matches!(r, Err(ApiError::MissingParamError)));
    let r = add_anwer(&mut store, params(&[("relationId", ""), ("content", "yes")]));
    assert!(matches!(r, Err(ApiError::MissingParamError)));
    let r = add_anwer(&mut store, params(&[("relationId", "0")]));
    assert!(matches!(r, Err(ApiError::MissingParamError)));
}

#[test]
fn cross_origin_rejection_is_403() {
    let reply = handle_errors(&Rejection::CorsForbidden(
        "CORS request forbidden: origin not allowed".to_string(),
    ));
    assert_eq!(reply.status, 403);
    assert_eq!(reply.body, "CORS request forbidden: origin not allowed");
}

#[test]
fn database_error_is_422() {
    let reply = handle_errors(&Rejection::Api(ApiError::DatabaseQueryError));
    assert_eq!(reply.status, 422);
    assert_eq!(reply.body, "cannot update, invalid data.");
}

#[test]
fn malformed_body_is_422() {
    let reply = handle_errors(&Rejection::MalformedBody("bad json".to_string()));
    assert_eq!(reply.status, 422);
    assert_eq!(reply.body, "bad json");
}

#[test]
fn missing_param_is_416() {
    let reply = handle_errors(&Rejection::Api(ApiError::MissingParamError));
    assert_eq!(reply.status, 416);
    assert_eq!(reply.body, "missing parameter\n");
}

#[test]
fn external_api_error_is_500_without_cause() {
    let e = reqwest::Client::new().get("not a url").build().unwrap_err();
    let reply = handle_errors(&Rejection::Api(ApiError::ExternalApiError(e)));
    assert_eq!(reply.status, 500);
    assert_eq!(reply.body, "Internal server error");
}

#[test]
fn upstream_errors_pass_through() {
    let e = ApiLayerError { status: 429, message: "slow down".to_string() };
    let reply = handle_errors(&Rejection::Api(ApiError::ClientError(e)));
    assert_eq!(reply.status, 429);
    assert_eq!(reply.body, "slow down");
    let e = ApiLayerError { status: 503, message: "later".to_string() };
    let reply = handle_errors(&Rejection::Api(ApiError::ServerError(e)));
    assert_eq!(reply.status, 503);
    assert_eq!(reply.body, "later");
}

#[test]
fn unmatched_is_404() {
    let reply = handle_errors(&Rejection::NotFound);
    assert_eq!(reply.status, 404);
    assert_eq!(reply.body, "Route not found");
}

#[test]
fn error_descriptions() {
    let e = ApiLayerError { status: 400, message: "bad".to_string() };
    assert_eq!(e.to_string(), "Status: 400, Message: bad");
    assert_eq!(
        ApiError::ClientError(e.clone()).to_string(),
        "external client error: Status: 400, Message: bad"
    );
    assert_eq!(
        ApiError::ServerError(e).to_string(),
        "external server error: Status: 400, Message: bad"
    );
    assert_eq!(ApiError::QuestionNotFound.to_string(), "question not found");
}

#[test]
fn decimal_numerals() {
    assert_eq!(blog_api::decimal_string(0), "0");
    assert_eq!(blog_api::decimal_string(1234), "1234");
    assert_eq!(blog_api::decimal_string(u64::MAX), u64::MAX.to_string());
}
