use blog_api::{extract_pagination, ApiError, Pagination, Params};

fn params(pairs: &[(&str, &str)]) -> Params {
    let mut p = Params::new();
    for (k, v) in pairs {
        p.insert(k.to_string(), v.to_string());
    }
    p
}

#[test]
fn extract_reads_both_values() {
    let r = extract_pagination(params(&[("limit", "10"), ("offset", "5")])).unwrap();
    assert_eq!(r, Pagination { limit: Some(10), offset: 5 });
}

#[test]
fn extract_accepts_plus_sign_and_leading_zeros() {
    let r = extract_pagination(params(&[("limit", "+7"), ("offset", "007")])).unwrap();
    assert_eq!(r, Pagination { limit: Some(7), offset: 7 });
}

#[test]
fn extract_reads_largest_values() {
    let r = extract_pagination(params(&[("limit", "4294967295"), ("offset", "0")])).unwrap();
    assert_eq!(r, Pagination { limit: Some(u32::MAX), offset: 0 });
}

#[test]
fn extract_only_limit_is_missing() {
    let r = extract_pagination(params(&[("limit", "10")]));
    assert!(matches!(r, Err(ApiError::MissingParamError)));
}

#[test]
fn extract_only_offset_is_missing() {
    let r = extract_pagination(params(&[("offset", "1"), ("sort", "asc")]));
    assert!(matches!(r, Err(ApiError::MissingParamError)));
}

#[test]
fn extract_neither_key_gives_default() {
    let r = extract_pagination(params(&[("sort", "asc")])).unwrap();
    assert_eq!(r, Pagination { limit: None, offset: 0 });
    assert_eq!(Pagination::default(), Pagination { limit: None, offset: 0 });
}

#[test]
fn extract_non_integer_is_parse_error() {
    let r = extract_pagination(params(&[("limit", "ten"), ("offset", "0")]));
    assert!(matches!(r, Err(ApiError::ParseError(_))));
    let r = extract_pagination(params(&[("limit", "1"), ("offset", "1.5")]));
    assert!(matches!(r, Err(ApiError::ParseError(_))));
}

#[test]
fn extract_negative_is_parse_error() {
    let r = extract_pagination(params(&[("limit", "-1"), ("offset", "0")]));
    assert!(matches!(r, Err(ApiError::ParseError(_))));
}

#[test]
fn extract_empty_or_too_large_is_parse_error() {
    let r = extract_pagination(params(&[("limit", ""), ("offset", "0")]));
    assert!(matches!(r, Err(ApiError::ParseError(_))));
    let r = extract_pagination(params(&[("limit", "1"), ("offset", "4294967296")]));
    assert!(matches!(r, Err(ApiError::ParseError(_))));
}

#[test]
fn parse_error_names_the_cause() {
    let r = extract_pagination(params(&[("limit", "x"), ("offset", "0")]));
    let e = r.unwrap_err();
    assert_eq!(e.to_string(), "could not parse parameter: invalid digit found in string\n");
}

#[test]
fn params_insert_replaces_value() {
    let mut p = Params::new();
    assert!(p.is_empty());
    p.insert("limit".to_string(), "1".to_string());
    p.insert("limit".to_string(), "2".to_string());
    assert!(!p.is_empty());
    assert!(p.contains_key("limit"));
    assert!(!p.contains_key("offset"));
    assert_eq!(p.get("limit").unwrap(), "2");
}
