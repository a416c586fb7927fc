use yahoo_finance_api::extract::{extract, pattern_for, select, Extraction};

fn found(extraction: Extraction) -> Option<String> {
    match extraction {
        Extraction::Found(token) => Some(token),
        _ => None,
    }
}

#[test]
fn extracts_token_when_name_precedes_value() {
    let token = found(extract("<input name=\"csrfToken\" value=\"T1\">", "csrfToken"));
    assert_eq!(token.as_deref(), Some("T1"));
}

#[test]
fn extracts_token_when_value_precedes_name() {
    let token = found(extract("<input value=\"T2\" name=\"csrfToken\">", "csrfToken"));
    assert_eq!(token.as_deref(), Some("T2"));
}

#[test]
fn extracts_token_from_single_quoted_attributes() {
    let token = found(extract("<input type='hidden' name='sessionId' value='3_cc-session_1'>", "sessionId"));
    assert_eq!(token.as_deref(), Some("3_cc-session_1"));
    let token = found(extract("<input type='hidden' value='S2' name='sessionId'>", "sessionId"));
    assert_eq!(token.as_deref(), Some("S2"));
}

#[test]
fn extracts_token_from_a_larger_page() {
    let page = "<html><body><form method=\"post\">\n\
        <input type=\"hidden\" name=\"csrfToken\" value=\"abcDEF123\">\n\
        <input type=\"hidden\" name=\"sessionId\" value=\"3_cc-session_9\">\n\
        <button name=\"agree\" value=\"agree\">ok</button></form></body></html>";
    assert_eq!(found(extract(page, "csrfToken")).as_deref(), Some("abcDEF123"));
    assert_eq!(found(extract(page, "sessionId")).as_deref(), Some("3_cc-session_9"));
}

#[test]
fn the_token_is_not_the_document() {
    let page = "<input name=\"csrfToken\" value=\"T1\">";
    let token = found(extract(page, "csrfToken")).unwrap();
    assert_ne!(token, page);
    assert_ne!(token, "csrfToken");
}

#[test]
fn missing_field_is_not_found() {
    assert!(matches!(extract("<input name=\"other\" value=\"T1\">", "csrfToken"), Extraction::NotFound));
    assert!(matches!(extract("", "csrfToken"), Extraction::NotFound));
    assert!(matches!(extract("<input name=\"csrfToken\">", "csrfToken"), Extraction::NotFound));
}

#[test]
fn field_that_breaks_the_pattern_is_refused() {
    assert!(matches!(extract("<input name=\"(\" value=\"T1\">", "("), Extraction::BadField));
}

#[test]
fn pattern_names_the_field_in_both_branches() {
    assert_eq!(
        pattern_for("csrfToken"),
        "<input[^>]+?(name=(\"|')csrfToken(\"|')[^>]+?value=(\"|')(?<token1>[^\"']+)(\"|'))|(value=(\"|')(?<token2>[^\"']+)(\"|')[^>]+?name=(\"|')csrfToken(\"|'))[^>]*?>"
    );
    assert_eq!(
        pattern_for("sessionId"),
        "<input[^>]+?(name=(\"|')sessionId(\"|')[^>]+?value=(\"|')(?<token1>[^\"']+)(\"|'))|(value=(\"|')(?<token2>[^\"']+)(\"|')[^>]+?name=(\"|')sessionId(\"|'))[^>]*?>"
    );
}

#[test]
fn select_prefers_the_name_first_group() {
    let both = Some(Some((Some("a".to_string()), Some("b".to_string()))));
    assert_eq!(found(select(both)).as_deref(), Some("a"));
    let second = Some(Some((None, Some("b".to_string()))));
    assert_eq!(found(select(second)).as_deref(), Some("b"));
    let first = Some(Some((Some("a".to_string()), None)));
    assert_eq!(found(select(first)).as_deref(), Some("a"));
}

#[test]
fn select_tells_the_failures_apart() {
    assert!(matches!(select(None), Extraction::BadField));
    assert!(matches!(select(Some(None)), Extraction::NotFound));
    assert!(matches!(select(Some(Some((None, None)))), Extraction::NoValue));
}
