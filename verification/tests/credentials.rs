use recorder_core::credentials::{extract_file_token, resolve_token, scan_files_token};

#[test]
fn env_value_wins_over_files() {
    let files = vec![Some(String::from("HF_TOKEN=\"filetok\""))];
    let r = resolve_token(Some(String::from("envtok")), &files);
    assert_eq!(r, Some(String::from("envtok")));
}

#[test]
fn env_value_used_verbatim_even_with_quotes() {
    let files: Vec<Option<String>> = vec![];
    let r = resolve_token(Some(String::from("\"envtok\"")), &files);
    assert_eq!(r, Some(String::from("\"envtok\"")));
}

#[test]
fn quoted_file_value_is_stripped() {
    let r = extract_file_token("HF_TOKEN=\"abc\"");
    assert_eq!(r, Some(String::from("abc")));
}

#[test]
fn unquoted_file_value_equals_quoted() {
    let quoted = extract_file_token("HF_TOKEN=\"abc\"");
    let unquoted = extract_file_token("HF_TOKEN=abc");
    assert_eq!(quoted, unquoted);
    assert_eq!(unquoted, Some(String::from("abc")));
}

#[test]
fn empty_value_skips_to_next_candidate() {
    let files = vec![
        Some(String::from("HF_TOKEN=\"\"")),
        Some(String::from("HF_TOKEN=xyz")),
    ];
    let r = resolve_token(None, &files);
    assert_eq!(r, Some(String::from("xyz")));
}

#[test]
fn empty_value_with_no_next_candidate_yields_nothing() {
    let files = vec![Some(String::from("HF_TOKEN=\"\""))];
    assert_eq!(resolve_token(None, &files), None);
}

#[test]
fn first_candidate_with_token_wins() {
    let files = vec![
        Some(String::from("HF_TOKEN=first")),
        Some(String::from("HF_TOKEN=second")),
    ];
    assert_eq!(resolve_token(None, &files), Some(String::from("first")));
}

#[test]
fn unreadable_candidates_are_skipped() {
    let files = vec![None, Some(String::from("HF_TOKEN=later"))];
    assert_eq!(scan_files_token(&files), Some(String::from("later")));
}

#[test]
fn no_candidate_yields_no_token() {
    let files = vec![None, Some(String::from("just a comment line"))];
    assert_eq!(resolve_token(None, &files), None);
}

#[test]
fn first_matching_line_in_file_wins() {
    let content = "# a comment\nHF_TOKEN=\"tok1\"\nHF_TOKEN=tok2\n";
    assert_eq!(extract_file_token(content), Some(String::from("tok1")));
}

#[test]
fn empty_value_line_does_not_stop_the_scan() {
    let content = "HF_TOKEN=\nHF_TOKEN=ok\n";
    assert_eq!(extract_file_token(content), Some(String::from("ok")));
}

#[test]
fn crlf_line_endings_are_handled() {
    let content = "HF_TOKEN=\"abc\"\r\nother\r\n";
    assert_eq!(extract_file_token(content), Some(String::from("abc")));
}

#[test]
fn prefix_must_start_the_line() {
    assert_eq!(extract_file_token("  HF_TOKEN=abc"), None);
    assert_eq!(extract_file_token("XHF_TOKEN=abc"), None);
}
