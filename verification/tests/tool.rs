use commitgen::tool::{
    commit_changes, commit_command, diff_command, get_git_diff, is_git_repository, marker_path,
    ToolOutcome,
};

fn exited(success: bool, stdout: &[u8], stderr: &[u8]) -> ToolOutcome {
    ToolOutcome::Exited { success, stdout: stdout.to_vec(), stderr: stderr.to_vec() }
}

#[test]
fn repository_marker_is_dot_git() {
    assert_eq!(marker_path(), ".git");
}

#[test]
fn repository_check_looks_for_the_marker() {
    assert_eq!(is_git_repository(), std::path::Path::new(".git").exists());
}

#[test]
fn diff_command_asks_for_staged_changes() {
    let invocation = diff_command();
    assert_eq!(invocation.program, "git");
    assert_eq!(invocation.args, vec!["diff".to_string(), "--cached".to_string()]);
}

#[test]
fn commit_command_passes_the_message_as_one_argument() {
    let invocation = commit_command("Add foo, remove bar");
    assert_eq!(invocation.program, "git");
    assert_eq!(
        invocation.args,
        vec!["commit".to_string(), "-m".to_string(), "Add foo, remove bar".to_string()]
    );
}

#[test]
fn commit_command_keeps_quotes_and_line_breaks() {
    let message = "fix: \"quoted\" $(rm -rf /)\n\nbody; with 'marks'";
    let invocation = commit_command(message);
    assert_eq!(invocation.args.len(), 3);
    assert_eq!(invocation.args[2], message);
}

#[test]
fn successful_diff_is_the_tools_output() {
    let diff = get_git_diff(&exited(true, b"+foo\n-bar\n", b"warning: ignored\n"));
    assert_eq!(diff, Ok("+foo\n-bar\n".to_string()));
}

#[test]
fn successful_empty_diff_is_ok_and_empty() {
    let diff = get_git_diff(&exited(true, b"", b""));
    assert_eq!(diff, Ok(String::new()));
}

#[test]
fn diff_keeps_well_formed_text_beyond_ascii() {
    let text = "+gr\u{fc}\u{df}e \u{4e16}\u{754c} \u{1f600}\n";
    let diff = get_git_diff(&exited(true, text.as_bytes(), b""));
    assert_eq!(diff, Ok(text.to_string()));
}

#[test]
fn malformed_bytes_in_diff_are_replaced() {
    let diff = get_git_diff(&exited(true, &[b'a', 0xff, b'b'], b""));
    assert_eq!(diff, Ok("a\u{fffd}b".to_string()));
}

#[test]
fn failed_diff_carries_the_error_stream() {
    let diff = get_git_diff(&exited(false, b"partial output", b"fatal: not a git repository\n"));
    assert_eq!(diff, Err("fatal: not a git repository\n".to_string()));
}

#[test]
fn malformed_bytes_in_error_stream_are_replaced() {
    let diff = get_git_diff(&exited(false, b"", &[0xc3, 0x28]));
    assert_eq!(diff, Err("\u{fffd}(".to_string()));
}

#[test]
fn diff_launch_failure_carries_its_description() {
    let diff = get_git_diff(&ToolOutcome::LaunchFailed("No such file or directory".to_string()));
    assert_eq!(diff, Err("No such file or directory".to_string()));
}

#[test]
fn successful_commit_is_ok() {
    assert_eq!(commit_changes(&exited(true, b"", b"")), Ok(()));
}

#[test]
fn failed_commit_is_a_generic_error() {
    let done = commit_changes(&exited(false, b"", b"nothing to commit\n"));
    assert_eq!(done, Err("Failed to commit changes".to_string()));
}

#[test]
fn commit_launch_failure_carries_its_description() {
    let done = commit_changes(&ToolOutcome::LaunchFailed("permission denied".to_string()));
    assert_eq!(done, Err("permission denied".to_string()));
}
