use rust_cli_release::{describe_failure, display, failure_message, quote, FailureCause};

#[test]
fn rendering_quotes_arguments_that_need_it() {
    let arguments: Vec<String> = ["commit", "-m", "a message", "--allow-empty"]
        .iter()
        .map(|argument| argument.to_string())
        .collect();
    assert_eq!(
        display("git", &arguments),
        "git commit -m 'a message' --allow-empty"
    );
}

#[test]
fn rendering_escapes_embedded_quotes_and_empty_arguments() {
    let arguments: Vec<String> = ["-c", "it's", ""]
        .iter()
        .map(|argument| argument.to_string())
        .collect();
    assert_eq!(display("sh", &arguments), r"sh -c 'it'\''s' ''");
}

#[test]
fn safe_words_stay_bare() {
    assert_eq!(quote("a-b_c./d:e=f@g"), "a-b_c./d:e=f@g");
    assert_eq!(quote("$HOME"), "'$HOME'");
    assert_eq!(quote("''"), r"''\'''\'''");
}

#[test]
fn stdout_explains_a_failure_when_stderr_is_silent() {
    assert_eq!(failure_message("  \n", "said on stdout\n"), "said on stdout");
    assert_eq!(failure_message("trouble\n", "ignored"), "trouble");
    assert_eq!(failure_message("", ""), "");
}

#[test]
fn failures_are_described_for_the_user() {
    assert_eq!(
        describe_failure("wombat", "wombat --x", &FailureCause::NotFound),
        "required command `wombat` was not found on PATH"
    );
    assert_eq!(
        describe_failure(
            "sh",
            "sh -c 'exit 3'",
            &FailureCause::Failed { message: "trouble".to_string() }
        ),
        "command failed: sh -c 'exit 3': trouble"
    );
    assert_eq!(
        describe_failure("sh", "sh", &FailureCause::Failed { message: String::new() }),
        "command failed: sh"
    );
    assert_eq!(
        describe_failure(
            "sh",
            "sh",
            &FailureCause::Spawn { reason: "permission denied".to_string() }
        ),
        "could not run sh: permission denied"
    );
}
