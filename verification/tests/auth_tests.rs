use githut::auth::token_from_output;

#[test]
fn token_is_trimmed_output() {
    assert_eq!(token_from_output(true, b"gho_abc123\n".to_vec(), &Vec::new()), Ok("gho_abc123".to_string()));
}

#[test]
fn failure_reports_stderr() {
    assert_eq!(
        token_from_output(false, Vec::new(), &b"  not logged in \n".to_vec()),
        Err("gh auth token failed: not logged in\nRun `gh auth login` first.".to_string())
    );
}

#[test]
fn failure_with_invalid_stderr_is_lossy() {
    assert_eq!(
        token_from_output(false, Vec::new(), &vec![0xff, b'x']),
        Err("gh auth token failed: \u{FFFD}x\nRun `gh auth login` first.".to_string())
    );
}

#[test]
fn output_must_be_utf8() {
    assert_eq!(
        token_from_output(true, vec![0x67, 0xff], &Vec::new()),
        Err("gh auth token output is not valid UTF-8".to_string())
    );
}

#[test]
fn empty_token_is_an_error() {
    assert_eq!(
        token_from_output(true, b" \n".to_vec(), &Vec::new()),
        Err("gh auth token returned empty — run `gh auth login` first.".to_string())
    );
}
