//! One handler per endpoint: each runs the steps of its request in order and
//! ends in a value or exactly one `ApiError`.

use vstd::prelude::*;
use crate::error::ApiError;
use crate::moderation::{GatewayResponse, censor_result, censored_text, classified};
use crate::pagination::{
    Pagination, extract_pagination, pagination_missing, pagination_of, pagination_unreadable,
};
use crate::params::Params;
use crate::store::{Store, deleted_message, has_id, index_of, replaced, window};
use crate::types::{Answer, NewQuestion, Question, QuestionId, question_views, tags_view};

verus! {

/// `GET /questions`: the questions in the window the query asks for.
///
/// Without query parameters every question is listed; otherwise the
/// pagination is read from them first, and a failure to read it ends the
/// request.
pub fn get_questions(params: Params, store: &Store) -> (r: Result<Vec<Question>, ApiError>)
    requires
        params.wf(),
    ensures
        match r {
            Ok(v) => {
                let p = pagination_of(params@);
                &&& !pagination_missing(params@)
                &&& !pagination_unreadable(params@)
                &&& question_views(v@) == window(store@, p.limit, p.offset)
            },
            Err(ApiError::MissingParamError) => pagination_missing(params@),
            Err(ApiError::ParseError(_)) => pagination_unreadable(params@),
            Err(_) => false,
        },
{
    let pagination = if params.is_empty() {
        proof {
            assert(!params@.contains_key("limit"@));
            assert(!params@.contains_key("offset"@));
        }
        Pagination::default()
    } else {
        match extract_pagination(params) {
            Ok(p) => p,
            Err(e) => return Err(e),
        }
    };
    Ok(store.get_questions(pagination.limit, pagination.offset))
}

/// `POST /questions`: stores `new_question` with its content replaced by the
/// censored text that the moderation service answered with.
///
/// A moderation failure ends the request and leaves the store as it was.
pub fn add_question(
    store: &mut Store,
    new_question: NewQuestion,
    sent: Result<GatewayResponse, reqwest::Error>,
) -> (r: Result<Question, ApiError>)
    requires
        old(store).wf(),
    ensures
        final(store).wf(),
        match censored_text(sent) {
            None => {
                &&& r is Err
                &&& r matches Err(e) && classified(sent, Err::<String, ApiError>(e))
                &&& *final(store) == *old(store)
            },
            Some(censored) => {
                &&& r is Ok <==> !old(store).question_ids_exhausted()
                &&& match r {
                    Ok(q) => {
                        &&& final(store)@ == old(store)@.push(q@)
                        &&& !has_id(old(store)@, q@.id)
                        &&& q@.title == new_question.title@
                        &&& q@.content == censored@
                        &&& q@.tags == tags_view(new_question.tags)
                    },
                    Err(e) => e is DatabaseQueryError && *final(store) == *old(store),
                }
            },
        },
{
    let censored = match censor_result(sent) {
        Ok(text) => text,
        Err(e) => return Err(e),
    };
    let question = NewQuestion {
        title: new_question.title,
        content: censored,
        tags: new_question.tags,
    };
    store.add_question(question)
}

/// `PUT /questions/{id}`: replaces the title, content and tags of question
/// `id` with those of `question`.
///
/// An id that no stored question has, the empty one included, is a
/// `QuestionNotFound`.
pub fn update_question(id: String, store: &mut Store, question: Question) -> (r: Result<
    Question,
    ApiError,
>)
    requires
        old(store).wf(),
    ensures
        final(store).wf(),
        match r {
            Ok(q) => {
                let i = index_of(old(store)@, id@);
                &&& has_id(old(store)@, id@)
                &&& final(store)@ == old(store)@.update(i, replaced(old(store)@[i], question@))
                &&& q@ == final(store)@[i]
            },
            Err(e) => e is QuestionNotFound && !has_id(old(store)@, id@) && *final(store)
                == *old(store),
        },
{
    let id = match QuestionId::new(id) {
        Some(id) => id,
        None => {
            proof {
                store.lemma_ids_non_empty();
            }
            return Err(ApiError::QuestionNotFound);
        },
    };
    store.update_question(question, &id)
}

/// `DELETE /questions/{id}`: removes question `id` and confirms it.
///
/// An id that no stored question has, the empty one included, is a
/// `QuestionNotFound`.
pub fn delete_question(id: String, store: &mut Store) -> (r: Result<String, ApiError>)
    requires
        old(store).wf(),
    ensures
        final(store).wf(),
        match r {
            Ok(message) => {
                &&& has_id(old(store)@, id@)
                &&& final(store)@ == old(store)@.remove(index_of(old(store)@, id@))
                &&& message@ == "question "@ + id@ + " deleted"@
            },
            Err(e) => e is QuestionNotFound && !has_id(old(store)@, id@) && *final(store)
                == *old(store),
        },
{
    let message = deleted_message(id.as_str());
    let id = match QuestionId::new(id) {
        Some(id) => id,
        None => {
            proof {
                store.lemma_ids_non_empty();
            }
            return Err(ApiError::QuestionNotFound);
        },
    };
    match store.delete_question(&id) {
        Ok(()) => Ok(message),
        Err(e) => Err(e),
    }
}

/// `POST /answers`: stores an answer with the form's `content` to the
/// question named by its `relationId`.
///
/// A form without `content`, or without a non-empty `relationId`, is a
/// `MissingParamError`.
pub fn add_anwer(store: &mut Store, params: Params) -> (r: Result<Answer, ApiError>)
    requires
        old(store).wf(),
        params.wf(),
    ensures
        final(store).wf(),
        final(store)@ == old(store)@,
        match r {
            Ok(a) => {
                &&& params@.contains_key("relationId"@)
                &&& params@.contains_key("content"@)
                &&& final(store).answers() == old(store).answers().push(a@)
                &&& a@.question_id == params@["relationId"@]
                &&& a@.content == params@["content"@]
            },
            Err(ApiError::MissingParamError) => {
                &&& !(params@.contains_key("relationId"@) && params@.contains_key("content"@)
                    && params@["relationId"@].len() > 0)
                &&& *final(store) == *old(store)
            },
            Err(ApiError::DatabaseQueryError) => {
                &&& old(store).answer_ids_exhausted()
                &&& *final(store) == *old(store)
            },
            Err(_) => false,
        },
{
    let question_id = match params.get("relationId") {
        Some(text) => text.clone(),
        None => return Err(ApiError::MissingParamError),
    };
    let content = match params.get("content") {
        Some(text) => text.clone(),
        None => return Err(ApiError::MissingParamError),
    };
    let question_id = match QuestionId::new(question_id) {
        Some(id) => id,
        None => return Err(ApiError::MissingParamError),
    };
    store.add_answer(question_id, content)
}

} // verus!
