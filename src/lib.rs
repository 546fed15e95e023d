//! Request handling and storage for a small question-and-answer service.
//!
//! The library holds the parts of the service that decide things: reading
//! pagination out of query parameters, an in-memory question store, the
//! classification of failures of the moderation service, and the rendering
//! of every failure as an HTTP status and body. Transport, JSON and the
//! database driver stay with the caller, which hands plain values in and
//! takes plain values back.

mod error;
mod moderation;
mod numeral;
mod pagination;
mod params;
mod routes;
mod store;
mod types;

pub use error::{
    ApiError, ApiLayerError, ErrorReply, Rejection, framed, handle_errors, layer_text, status_for,
};
pub use moderation::{
    GatewayResponse, censor_result, censored_text, classified, is_client_error, is_client_error_status,
    is_success, is_success_status,
};
pub use numeral::{
    decimal, decimal_string, digit_char, digits_value, is_digit, is_u32_text, lemma_decimal_digits,
    lemma_decimal_value, unsigned_digits,
};
pub use pagination::{
    Pagination, extract_pagination, law_numerals_are_read, pagination_missing, pagination_of,
    pagination_unreadable, u32_value,
};
pub use params::{Params, has_name};
pub use routes::{add_anwer, add_question, delete_question, get_questions, update_question};
pub use store::{
    Store, database_key, deleted_message, deletion_outcome, from_database, has_id, ids_unique, index_of, law_window_len_and_order,
    replaced, window, window_len,
};
pub use types::{
    Answer, AnswerId, AnswerView, NewQuestion, Question, QuestionId, QuestionView, question_views,
    tags_view,
};
