use ticktask::errors::AuthError;
use ticktask::query::extract_redirect;

#[test]
fn extracts_code_and_state() {
    let r = extract_redirect("/?code=abc123&state=deadbeef").unwrap();
    assert_eq!(r.code, "abc123");
    assert_eq!(r.state, "deadbeef");
}

#[test]
fn parameter_order_does_not_matter() {
    let r = extract_redirect("/?state=deadbeef&code=abc123").unwrap();
    assert_eq!(r.code, "abc123");
    assert_eq!(r.state, "deadbeef");
}

#[test]
fn unrecognized_parameters_are_ignored() {
    let r = extract_redirect("/?foo=1&code=c&bar=2&state=s&baz=3").unwrap();
    assert_eq!(r.code, "c");
    assert_eq!(r.state, "s");
}

#[test]
fn missing_state_yields_missing_state() {
    let r = extract_redirect("/?code=abc123");
    assert_eq!(r, Err(AuthError::MissingState));
}

#[test]
fn missing_code_yields_missing_code() {
    let r = extract_redirect("/?state=deadbeef");
    assert_eq!(r, Err(AuthError::MissingCode));
}

#[test]
fn url_without_query_yields_missing_code() {
    let r = extract_redirect("/");
    assert_eq!(r, Err(AuthError::MissingCode));
}

#[test]
fn last_occurrence_of_a_duplicate_key_wins() {
    let r = extract_redirect("/?code=first&state=s&code=second").unwrap();
    assert_eq!(r.code, "second");
    assert_eq!(r.state, "s");
}

#[test]
fn value_stops_at_a_second_equals_sign() {
    let r = extract_redirect("/?code=a=b&state=s").unwrap();
    assert_eq!(r.code, "a");
}

#[test]
fn empty_value_is_still_a_value() {
    let r = extract_redirect("/?code=&state=s").unwrap();
    assert_eq!(r.code, "");
    assert_eq!(r.state, "s");
}

#[test]
fn query_ends_at_a_second_question_mark() {
    let r = extract_redirect("/?code=c&state=s?code=other").unwrap();
    assert_eq!(r.code, "c");
    assert_eq!(r.state, "s");
}

#[test]
fn entry_without_equals_contributes_nothing() {
    let r = extract_redirect("/?code&state=s");
    assert_eq!(r, Err(AuthError::MissingCode));
}
