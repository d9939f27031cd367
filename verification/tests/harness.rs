use agentscommander::harness::{decision_lines, identity_from_root};
use agentscommander::harness::{
    cap_logged_command, decision_parts, display_argv, evaluate_policy, exit_before_run, parse_mode,
    policy_input_for, redact_secrets, ExecutionMode, HarnessArgs, PolicyDecision, PolicyInput,
    MAX_LOGGED_COMMAND_LEN,
};

#[test]
fn denies_destructive_unix_root_removal() {
    let input = PolicyInput {
        raw_display: display_argv(&vec!["rm".into(), "-rf".into(), "/".into()]),
        argv: vec!["rm".into(), "-rf".into(), "/".into()],
        raw_shell: false,
    };
    assert!(matches!(evaluate_policy(&input), PolicyDecision::Deny(_)));
}

#[test]
fn denies_destructive_windows_forms() {
    let inputs = [
        vec!["Remove-Item", "-Recurse", "-Force", "C:\\"],
        vec!["rd", "/s", "/q", "C:\\"],
        vec!["del", "/s", "/q", "C:\\"],
    ];
    for argv in inputs {
        let argv: Vec<String> = argv.into_iter().map(str::to_string).collect();
        let input = PolicyInput { raw_display: display_argv(&argv), argv, raw_shell: false };
        assert!(matches!(evaluate_policy(&input), PolicyDecision::Deny(_)));
    }
}

#[test]
fn raw_chain_destructive_command_is_denied() {
    let input = PolicyInput {
        raw_display: "echo ok && rm -rf /".to_string(),
        argv: Vec::new(),
        raw_shell: true,
    };
    assert!(matches!(evaluate_policy(&input), PolicyDecision::Deny(_)));
}

#[test]
fn branch_guardrail_warns_without_denying() {
    let input = PolicyInput {
        raw_display: "git checkout -b bad branch".to_string(),
        argv: vec!["git".into(), "checkout".into(), "-b".into(), "bad branch".into()],
        raw_shell: false,
    };
    assert!(matches!(evaluate_policy(&input), PolicyDecision::Warn(_)));
}

#[test]
fn nested_shell_warns() {
    let input = PolicyInput {
        raw_display: "pwsh -Command echo hi".to_string(),
        argv: vec!["pwsh".into(), "-Command".into(), "echo hi".into()],
        raw_shell: false,
    };
    assert!(matches!(evaluate_policy(&input), PolicyDecision::Warn(_)));
}

#[test]
fn argv_display_preserves_argument_boundaries() {
    let argv = vec!["echo".to_string(), "a b".to_string(), "c\"d".to_string()];
    assert_eq!(display_argv(&argv), "echo\u{1f}a b\u{1f}c\"d");
}

#[test]
fn redacts_secret_patterns() {
    let redacted =
        redact_secrets("curl -H Authorization=Bearer abc --token secret _authToken=def password=hunter2");
    assert!(redacted.contains("Authorization=[REDACTED]"));
    assert!(redacted.contains("--token [REDACTED]"));
    assert!(redacted.contains("_authToken=[REDACTED]"));
    assert!(redacted.contains("password=[REDACTED]"));
    assert!(!redacted.contains("abc"));
    assert!(!redacted.contains("hunter2"));
    assert!(!redacted.contains("secret _authToken"));
}

// ── further cases ────────────────────────────────────────────────────────

#[test]
fn plain_command_is_allowed() {
    let input = PolicyInput {
        raw_display: "ls -la".to_string(),
        argv: vec!["ls".into(), "-la".into()],
        raw_shell: false,
    };
    let decision = evaluate_policy(&input);
    assert!(matches!(decision, PolicyDecision::Allow));
    let (name, reasons) = decision_parts(&decision);
    assert_eq!(name, "allow");
    assert!(reasons.is_empty());
    assert_eq!(exit_before_run(&decision, false, false), None);
    assert_eq!(exit_before_run(&decision, true, false), Some(0));
}

#[test]
fn denial_exits_before_running() {
    let input = PolicyInput {
        raw_display: "rm -rf /".to_string(),
        argv: Vec::new(),
        raw_shell: true,
    };
    let decision = evaluate_policy(&input);
    assert_eq!(exit_before_run(&decision, false, false), Some(1));
    let (name, reasons) = decision_parts(&decision);
    assert_eq!(name, "deny");
    assert!(!reasons.is_empty());
}

#[test]
fn execution_mode_choice() {
    let args = HarnessArgs { explain: false, dry_run: false, command: vec![], raw_command: None };
    assert_eq!(
        parse_mode(&args).err().unwrap(),
        "provide a command after -- or pass --raw-command"
    );
    let args = HarnessArgs {
        explain: false,
        dry_run: false,
        command: vec![],
        raw_command: Some("  ".to_string()),
    };
    assert_eq!(parse_mode(&args).err().unwrap(), "--raw-command cannot be empty");
    let args = HarnessArgs {
        explain: false,
        dry_run: false,
        command: vec!["echo".into(), "x".into()],
        raw_command: None,
    };
    let mode = parse_mode(&args).ok().unwrap();
    let input = policy_input_for(&mode);
    assert_eq!(input.raw_display, "echo\u{1f}x");
    assert!(!input.raw_shell);
    let input = policy_input_for(&ExecutionMode::Raw("echo hi".to_string()));
    assert!(input.raw_shell);
    assert!(input.argv.is_empty());
}

#[test]
fn logged_command_is_capped() {
    let short = "echo hi";
    assert_eq!(cap_logged_command(short), (short.to_string(), false));
    let long = "x".repeat(MAX_LOGGED_COMMAND_LEN + 5);
    let (capped, truncated) = cap_logged_command(&long);
    assert!(truncated);
    assert_eq!(capped, format!("{}...[truncated]", "x".repeat(MAX_LOGGED_COMMAND_LEN)));
}

#[test]
fn redaction_keeps_other_words() {
    assert_eq!(redact_secrets("echo hello world"), "echo hello world");
    assert_eq!(redact_secrets("--password x y"), "--password [REDACTED] y");
}

#[test]
fn identity_comes_from_the_root_directory_name() {
    assert_eq!(identity_from_root(true, Some("__agent_dev")), "unidentified_agent");
    assert_eq!(identity_from_root(false, Some("__agent_dev-rust")), "dev-rust");
    assert_eq!(identity_from_root(false, Some("__agent___agent_x")), "x");
    assert_eq!(identity_from_root(false, Some("__agent_")), "unidentified_agent");
    assert_eq!(identity_from_root(false, Some("plain")), "plain");
    assert_eq!(identity_from_root(false, None), "unidentified_agent");
}

#[test]
fn decision_lines_follow_the_verdict() {
    let lines = decision_lines(&PolicyDecision::Allow, false, false);
    assert_eq!(lines.len(), 1);
    assert!(lines[0].to_stdout);
    assert_eq!(lines[0].text, "harness: allow");
    let lines = decision_lines(&PolicyDecision::Warn(vec!["nested shell".to_string()]), true, true);
    let texts: Vec<(bool, &str)> = lines.iter().map(|l| (l.to_stdout, l.text.as_str())).collect();
    assert_eq!(
        texts,
        vec![
            (true, "harness: warn"),
            (false, "warning: nested shell"),
            (true, "harness: raw-shell command, policy matching best-effort"),
        ]
    );
    let lines = decision_lines(&PolicyDecision::Deny(vec!["a".to_string(), "b".to_string()]), false, true);
    let texts: Vec<(bool, &str)> = lines.iter().map(|l| (l.to_stdout, l.text.as_str())).collect();
    assert_eq!(
        texts,
        vec![
            (false, "harness: deny"),
            (false, "denied: a"),
            (false, "denied: b"),
            (true, "harness: argv command, policy matching argv-preserving"),
        ]
    );
}

#[test]
fn plain_command_comes_back_as_its_words() {
    assert_eq!(redact_secrets("  git   status  --short "), "git status --short");
    assert_eq!(redact_secrets("cargo test -q"), "cargo test -q");
}
