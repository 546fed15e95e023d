//! The window of a list request: how many questions, and from where.

use vstd::prelude::*;
use crate::error::ApiError;
use crate::numeral::{
    decimal, digits_value, is_digit, is_u32_text, lemma_decimal_digits, lemma_decimal_value, parse_u32,
    unsigned_digits,
};
use crate::params::Params;

verus! {

/// How many questions to list, and how many to skip first.
#[derive(Debug, Clone, Copy, PartialEq, Eq, Structural)]
pub struct Pagination {
    /// At most this many questions; `None` lists all that remain.
    pub limit: Option<u32>,
    /// The number of questions skipped before the first one listed.
    pub offset: u32,
}

impl Default for Pagination {
    /// No limit, starting at the first question.
    fn default() -> (r: Self)
        ensures
            r == (Pagination { limit: None, offset: 0 }),
    {
        Pagination { limit: None, offset: 0 }
    }
}

/// The value of text that reads as a `u32`.
pub open spec fn u32_value(s: Seq<char>) -> u32 {
    digits_value(unsigned_digits(s)) as u32
}

/// Exactly one of `limit` and `offset` is given.
pub open spec fn pagination_missing(m: Map<Seq<char>, Seq<char>>) -> bool {
    m.contains_key("limit"@) != m.contains_key("offset"@)
}

/// Both `limit` and `offset` are given, and one of them is not a `u32`.
pub open spec fn pagination_unreadable(m: Map<Seq<char>, Seq<char>>) -> bool {
    &&& m.contains_key("limit"@)
    &&& m.contains_key("offset"@)
    &&& !(is_u32_text(m["limit"@]) && is_u32_text(m["offset"@]))
}

/// The pagination that parameters `m` ask for, when they ask for a valid one:
/// the default when neither key is given, else the two values.
pub open spec fn pagination_of(m: Map<Seq<char>, Seq<char>>) -> Pagination {
    if m.contains_key("limit"@) && m.contains_key("offset"@) {
        Pagination { limit: Some(u32_value(m["limit"@])), offset: u32_value(m["offset"@]) }
    } else {
        Pagination { limit: None, offset: 0 }
    }
}

/// Parameters that give both `limit` and `offset` as the numerals of
/// non-negative 32-bit integers are read as exactly those two values.
pub proof fn law_numerals_are_read(m: Map<Seq<char>, Seq<char>>, limit: nat, offset: nat)
    requires
        m.contains_key("limit"@),
        m.contains_key("offset"@),
        m["limit"@] == decimal(limit),
        m["offset"@] == decimal(offset),
        limit <= u32::MAX,
        offset <= u32::MAX,
    ensures
        !pagination_missing(m),
        !pagination_unreadable(m),
        pagination_of(m) == (Pagination { limit: Some(limit as u32), offset: offset as u32 }),
{
    lemma_numeral_is_u32_text(limit);
    lemma_numeral_is_u32_text(offset);
}

proof fn lemma_numeral_is_u32_text(n: nat)
    requires
        n <= u32::MAX,
    ensures
        unsigned_digits(decimal(n)) == decimal(n),
        is_u32_text(decimal(n)),
        digits_value(unsigned_digits(decimal(n))) == n,
{
    lemma_decimal_value(n);
    lemma_decimal_digits(n);
    assert(is_digit(decimal(n)[0]));
}

/// Reads the pagination out of the parameters of a list request.
///
/// Neither `limit` nor `offset` gives the default; exactly one of them is a
/// `MissingParamError`; both must read as non-negative integers, else the
/// first that does not is a `ParseError`.
pub fn extract_pagination(params: Params) -> (r: Result<Pagination, ApiError>)
    requires
        params.wf(),
    ensures
        match r {
            Ok(p) => !pagination_missing(params@) && !pagination_unreadable(params@) && p
                == pagination_of(params@),
            Err(ApiError::MissingParamError) => pagination_missing(params@),
            Err(ApiError::ParseError(_)) => pagination_unreadable(params@),
            Err(_) => false,
        },
{
    let limit = params.get("limit");
    let offset = params.get("offset");
    match (limit, offset) {
        (None, None) => Ok(Pagination::default()),
        (Some(l), Some(o)) => {
            let limit = match parse_u32(l.as_str()) {
                Ok(v) => v,
                Err(e) => return Err(ApiError::ParseError(e)),
            };
            let offset = match parse_u32(o.as_str()) {
                Ok(v) => v,
                Err(e) => return Err(ApiError::ParseError(e)),
            };
            Ok(Pagination { limit: Some(limit), offset })
        },
        _ => Err(ApiError::MissingParamError),
    }
}

} // verus!
