use agentscommander::cli::{require_token_and_root, validate_cli_token};
use agentscommander::close_session::{
    format_no_response_error, interpret_close_response_exit_code, response_wait_budget,
    status_prose as close_status_prose,
};
use agentscommander::purge_wg::{interpret_purge_response_exit_code, status_prose as purge_status_prose};
use agentscommander::raise_hand::interpret_raise_hand_response;
use agentscommander::self_clear::{interpret_self_clear_response_exit_code, self_clear_queued_status};
use agentscommander::self_restart::{
    interpret_self_restart_response_exit_code, self_restart_queued_status,
};
use agentscommander::self_switch::{
    interpret_self_switch_response_exit_code, normalize_profile_arg, quote_coding_agent_id_for_copy,
    render_coding_agent_discovery, single_quote_arg_for_copy, switch_request, DiscoveryAgent,
    SelfSwitchArgs,
};

// ── close-session ────────────────────────────────────────────────────────

#[test]
fn closed_status_returns_zero() {
    let resp = r#"{"status":"closed","sessions_closed":2,"session_ids":["a","b"],"target":"t","action":"close-session"}"#;
    assert_eq!(interpret_close_response_exit_code(resp), 0);
}

#[test]
fn already_closed_status_returns_zero() {
    let resp = r#"{"status":"already_closed","sessions_closed":0,"session_ids":[],"target":"t","action":"close-session"}"#;
    assert_eq!(interpret_close_response_exit_code(resp), 0);
}

#[test]
fn no_match_status_returns_zero() {
    let resp = r#"{"status":"no_match","sessions_closed":0,"session_ids":[],"target":"t","action":"close-session"}"#;
    assert_eq!(interpret_close_response_exit_code(resp), 0);
}

#[test]
fn restore_in_progress_status_returns_zero() {
    let resp = r#"{"status":"restore_in_progress","sessions_closed":0,"session_ids":[],"target":"t","action":"close-session"}"#;
    assert_eq!(interpret_close_response_exit_code(resp), 0);
}

#[test]
fn close_session_unparseable_json_returns_two() {
    assert_eq!(interpret_close_response_exit_code("not json"), 2);
    assert_eq!(interpret_close_response_exit_code(""), 2);
    assert_eq!(interpret_close_response_exit_code("{partial"), 2);
}

#[test]
fn close_session_missing_status_field_returns_two() {
    let resp = r#"{"sessions_closed":0,"target":"t","action":"close-session"}"#;
    assert_eq!(interpret_close_response_exit_code(resp), 2);
}

#[test]
fn close_session_unknown_status_returns_two() {
    let resp = r#"{"status":"weird_new_state","target":"t","action":"close-session"}"#;
    assert_eq!(interpret_close_response_exit_code(resp), 2);
}

#[test]
fn close_session_non_string_status_returns_two() {
    let resp = r#"{"status":42,"target":"t","action":"close-session"}"#;
    assert_eq!(interpret_close_response_exit_code(resp), 2);
}

#[test]
fn close_session_non_object_json_returns_two() {
    assert_eq!(interpret_close_response_exit_code("null"), 2);
    assert_eq!(interpret_close_response_exit_code("[1,2,3]"), 2);
    assert_eq!(interpret_close_response_exit_code("\"closed\""), 2);
    assert_eq!(interpret_close_response_exit_code("42"), 2);
    assert_eq!(interpret_close_response_exit_code("true"), 2);
}

#[test]
fn print_status_prose_does_not_panic_on_known_statuses() {
    for s in &["closed", "already_closed", "no_match", "restore_in_progress"] {
        let body = format!(r#"{{"status":"{}","target":"t"}}"#, s);
        close_status_prose(&body);
    }
}

#[test]
fn print_status_prose_does_not_panic_on_unknown_input() {
    close_status_prose("not json");
    close_status_prose("");
    close_status_prose(r#"{"status":"unknown"}"#);
    close_status_prose(r#"{"no_status_at_all":true}"#);
    close_status_prose(r#"{"status":42}"#);
}

#[test]
fn close_status_prose_lines() {
    assert_eq!(
        close_status_prose(r#"{"status":"no_match","target":"p/a"}"#),
        Some("No sessions matched 'p/a' \u{2014} nothing to close.".to_string())
    );
    assert_eq!(
        close_status_prose(r#"{"status":"already_closed"}"#),
        Some("Session for '' already closed (raced before destroy).".to_string())
    );
    assert_eq!(
        close_status_prose(r#"{"status":"restore_in_progress","target":"x"}"#),
        Some(
            "Daemon is still restoring sessions; 'x' may exist once restore completes. Retry in a few seconds."
                .to_string()
        )
    );
    assert_eq!(close_status_prose(r#"{"status":"closed","target":"x"}"#), None);
}

#[test]
fn response_wait_budget_adds_fixed_overhead() {
    assert_eq!(response_wait_budget(30), 90);
    assert_eq!(response_wait_budget(120), 180);
    assert_eq!(response_wait_budget(0), 60);
}

#[test]
fn no_response_error_labels_both_ids_in_both_flavors() {
    let m = format_no_response_error(90, "rid-1", "mid-1", false);
    assert!(m.contains("no confirmation within 90s"));
    assert!(m.contains("request rid-1"));
    assert!(m.contains("message mid-1"));
    let m = format_no_response_error(90, "rid-1", "mid-1", true);
    assert!(m.contains("did not write a response within 90s"));
    assert!(m.contains("request rid-1"));
    assert!(m.contains("message mid-1"));
}

#[test]
fn no_response_error_exact_text() {
    assert_eq!(
        format_no_response_error(4294967355, "r", "m", true),
        "close-session delivered but daemon did not write a response within 4294967355s; outcome unknown (request r, message m)"
    );
}

// ── purge-wg ─────────────────────────────────────────────────────────────

#[test]
fn purged_returns_zero() {
    let resp = r#"{"status":"purged","purged":3,"failed":0}"#;
    assert_eq!(interpret_purge_response_exit_code(resp), 0);
}

#[test]
fn dry_run_ready_returns_zero() {
    let resp = r#"{"status":"dry_run_ready","would_purge":true}"#;
    assert_eq!(interpret_purge_response_exit_code(resp), 0);
}

#[test]
fn dry_run_blocked_returns_three() {
    let resp = r#"{"status":"dry_run_blocked","would_purge":false}"#;
    assert_eq!(interpret_purge_response_exit_code(resp), 3);
}

#[test]
fn rejected_busy_returns_three() {
    let resp = r#"{"status":"rejected_busy","peers":[]}"#;
    assert_eq!(interpret_purge_response_exit_code(resp), 3);
}

#[test]
fn restore_in_progress_returns_three() {
    let resp = r#"{"status":"restore_in_progress"}"#;
    assert_eq!(interpret_purge_response_exit_code(resp), 3);
}

#[test]
fn partial_failure_returns_four() {
    let resp = r#"{"status":"partial_failure","purged":2,"failed":1}"#;
    assert_eq!(interpret_purge_response_exit_code(resp), 4);
}

#[test]
fn failed_root_guard_returns_four() {
    let resp = r#"{"status":"failed_root_guard","offending_session_id":"abc"}"#;
    assert_eq!(interpret_purge_response_exit_code(resp), 4);
}

#[test]
fn purge_wg_unparseable_json_returns_two() {
    assert_eq!(interpret_purge_response_exit_code("not json"), 2);
    assert_eq!(interpret_purge_response_exit_code(""), 2);
}

#[test]
fn purge_wg_missing_status_field_returns_two() {
    let resp = r#"{"purged":0}"#;
    assert_eq!(interpret_purge_response_exit_code(resp), 2);
}

#[test]
fn purge_wg_unknown_status_returns_two() {
    let resp = r#"{"status":"weird"}"#;
    assert_eq!(interpret_purge_response_exit_code(resp), 2);
}

#[test]
fn purge_wg_non_string_status_returns_two() {
    let resp = r#"{"status":42}"#;
    assert_eq!(interpret_purge_response_exit_code(resp), 2);
}

#[test]
fn purge_wg_non_object_json_returns_two() {
    assert_eq!(interpret_purge_response_exit_code("null"), 2);
    assert_eq!(interpret_purge_response_exit_code("[1,2,3]"), 2);
    assert_eq!(interpret_purge_response_exit_code("\"purged\""), 2);
    assert_eq!(interpret_purge_response_exit_code("42"), 2);
    assert_eq!(interpret_purge_response_exit_code("true"), 2);
}

#[test]
fn exit_code_never_reads_would_purge() {
    let resp = r#"{"status":"dry_run_blocked","would_purge":true}"#;
    assert_eq!(interpret_purge_response_exit_code(resp), 3);
}

#[test]
fn print_status_prose_does_not_panic() {
    purge_status_prose("not json");
    purge_status_prose("");
    purge_status_prose(r#"{"status":"purged"}"#);
    purge_status_prose(r#"{"status":"rejected_busy"}"#);
    purge_status_prose(
        r#"{"status":"failed_root_guard","offending_session_id":"x","offending_working_directory":"y"}"#,
    );
}

#[test]
fn purge_status_prose_lines() {
    assert_eq!(purge_status_prose(r#"{"status":"purged"}"#), None);
    assert_eq!(
        purge_status_prose(r#"{"status":"dry_run_ready"}"#),
        Some("Dry-run: gate would PASS. No sessions destroyed.".to_string())
    );
    assert_eq!(
        purge_status_prose(
            r#"{"status":"failed_root_guard","offending_session_id":"x","offending_working_directory":"y"}"#
        ),
        Some(
            "Root guard tripped: session x at 'y' appears to be a Root Agent record. Nothing destroyed. Repair sessions.json and retry."
                .to_string()
        )
    );
    assert_eq!(
        purge_status_prose(r#"{"status":"failed_root_guard"}"#),
        Some(
            "Root guard tripped: session unknown at 'unknown' appears to be a Root Agent record. Nothing destroyed. Repair sessions.json and retry."
                .to_string()
        )
    );
}

// ── raise-hand ───────────────────────────────────────────────────────────

#[test]
fn true_response_interprets_true() {
    assert_eq!(interpret_raise_hand_response(r#"{"raised":true}"#), Ok(true));
}

#[test]
fn false_response_interprets_false() {
    assert_eq!(interpret_raise_hand_response(r#"{"raised":false}"#), Ok(false));
}

#[test]
fn missing_or_non_bool_raised_maps_to_exit_two() {
    assert_eq!(interpret_raise_hand_response(r#"{"status":"raised"}"#), Err(2));
    assert_eq!(interpret_raise_hand_response(r#"{"raised":"true"}"#), Err(2));
    assert_eq!(interpret_raise_hand_response("not json"), Err(2));
}

// ── self-handoff-and-clear ───────────────────────────────────────────────

#[test]
fn self_clear_queued_status_returns_zero() {
    let resp = r#"{"action":"self-handoff-and-clear","status":"queued","session_id":"s","settle_secs":30}"#;
    assert_eq!(interpret_self_clear_response_exit_code(resp), 0);
}

#[test]
fn self_clear_already_queued_status_returns_zero() {
    let resp = r#"{"action":"self-handoff-and-clear","status":"already_queued","session_id":"s","settle_secs":30}"#;
    assert_eq!(interpret_self_clear_response_exit_code(resp), 0);
}

#[test]
fn self_clear_unknown_status_returns_two() {
    let resp = r#"{"status":"weird_new_state","action":"self-handoff-and-clear"}"#;
    assert_eq!(interpret_self_clear_response_exit_code(resp), 2);
}

#[test]
fn self_clear_unparseable_json_returns_two() {
    assert_eq!(interpret_self_clear_response_exit_code("not json"), 2);
    assert_eq!(interpret_self_clear_response_exit_code(""), 2);
    assert_eq!(interpret_self_clear_response_exit_code("{partial"), 2);
}

#[test]
fn self_clear_missing_status_field_returns_two() {
    let resp = r#"{"action":"self-handoff-and-clear","session_id":"s"}"#;
    assert_eq!(interpret_self_clear_response_exit_code(resp), 2);
}

#[test]
fn self_clear_non_string_status_returns_two() {
    let resp = r#"{"status":42,"action":"self-handoff-and-clear"}"#;
    assert_eq!(interpret_self_clear_response_exit_code(resp), 2);
}

#[test]
fn self_clear_non_object_json_returns_two() {
    assert_eq!(interpret_self_clear_response_exit_code("null"), 2);
    assert_eq!(interpret_self_clear_response_exit_code("[1,2,3]"), 2);
    assert_eq!(interpret_self_clear_response_exit_code("\"queued\""), 2);
    assert_eq!(interpret_self_clear_response_exit_code("42"), 2);
    assert_eq!(interpret_self_clear_response_exit_code("true"), 2);
}

#[test]
fn self_clear_queued_status_documents_provider_resolved_clear() {
    let status = self_clear_queued_status(30);
    assert!(status.contains("provider-resolved clear text"), "{status}");
    assert!(status.contains("/new"), "{status}");
    assert!(status.contains("/clear"), "{status}");
    assert!(status.contains("exact-stem direct Pi shell"), "{status}");
    assert!(status.contains("continuously idle for 30s"), "{status}");
    assert!(!status.contains("Phase 1 injects /clear"), "{status}");
}

// ── self-handoff-and-restart ─────────────────────────────────────────────

#[test]
fn self_restart_queued_status_returns_zero() {
    let resp = r#"{"action":"self-handoff-and-restart","status":"queued","session_id":"s","settle_secs":30}"#;
    assert_eq!(interpret_self_restart_response_exit_code(resp), 0);
}

#[test]
fn self_restart_already_queued_status_returns_zero() {
    let resp = r#"{"action":"self-handoff-and-restart","status":"already_queued","session_id":"s","settle_secs":30}"#;
    assert_eq!(interpret_self_restart_response_exit_code(resp), 0);
}

#[test]
fn self_restart_unknown_status_returns_two() {
    let resp = r#"{"status":"weird_new_state","action":"self-handoff-and-restart"}"#;
    assert_eq!(interpret_self_restart_response_exit_code(resp), 2);
}

#[test]
fn self_restart_unparseable_json_returns_two() {
    assert_eq!(interpret_self_restart_response_exit_code("not json"), 2);
    assert_eq!(interpret_self_restart_response_exit_code(""), 2);
    assert_eq!(interpret_self_restart_response_exit_code("{partial"), 2);
}

#[test]
fn self_restart_missing_status_field_returns_two() {
    let resp = r#"{"action":"self-handoff-and-restart","session_id":"s"}"#;
    assert_eq!(interpret_self_restart_response_exit_code(resp), 2);
}

#[test]
fn self_restart_non_string_status_returns_two() {
    let resp = r#"{"status":42,"action":"self-handoff-and-restart"}"#;
    assert_eq!(interpret_self_restart_response_exit_code(resp), 2);
}

#[test]
fn self_restart_non_object_json_returns_two() {
    assert_eq!(interpret_self_restart_response_exit_code("null"), 2);
    assert_eq!(interpret_self_restart_response_exit_code("[1,2,3]"), 2);
    assert_eq!(interpret_self_restart_response_exit_code("\"queued\""), 2);
    assert_eq!(interpret_self_restart_response_exit_code("42"), 2);
    assert_eq!(interpret_self_restart_response_exit_code("true"), 2);
}

#[test]
fn self_restart_queued_status_is_honest_about_the_recipe_and_the_selection() {
    let status = self_restart_queued_status(30);
    assert!(status.contains("continuously idle for 30s"), "{status}");
    assert!(status.contains("same configured coding agent and the same profile letter"), "{status}");
    assert!(!status.contains("no settings"), "{status}");
    assert!(!status.contains("same parameters"), "{status}");
    assert!(!status.contains('\u{2014}'), "{status}");
}

#[test]
fn queued_status_numerals() {
    assert!(self_clear_queued_status(0).contains("idle for 0s"));
    assert!(self_restart_queued_status(18446744073709551615).contains("idle for 18446744073709551615s"));
}

// ── self-handoff-and-switch ──────────────────────────────────────────────

#[test]
fn self_switch_queued_status_returns_zero() {
    let resp = r#"{"action":"self-handoff-and-switch","status":"queued","session_id":"s"}"#;
    assert_eq!(interpret_self_switch_response_exit_code(resp), 0);
}

#[test]
fn self_switch_already_queued_status_returns_zero() {
    let resp = r#"{"action":"self-handoff-and-switch","status":"already_queued","session_id":"s"}"#;
    assert_eq!(interpret_self_switch_response_exit_code(resp), 0);
}

#[test]
fn self_switch_unknown_status_returns_two() {
    let resp = r#"{"status":"weird","action":"self-handoff-and-switch"}"#;
    assert_eq!(interpret_self_switch_response_exit_code(resp), 2);
}

#[test]
fn normalize_profile_arg_uppercases_valid_letter() {
    assert_eq!(normalize_profile_arg(Some("b".into())).unwrap().as_deref(), Some("B"));
}

#[test]
fn normalize_profile_arg_rejects_non_letter() {
    assert!(normalize_profile_arg(Some("aa".into())).is_err());
    assert!(normalize_profile_arg(Some("1".into())).is_err());
}

#[test]
fn normalize_profile_arg_keeps_absent_and_upper() {
    assert_eq!(normalize_profile_arg(None), Ok(None));
    assert_eq!(normalize_profile_arg(Some("Z".into())), Ok(Some("Z".to_string())));
    assert_eq!(
        normalize_profile_arg(Some("é".into())),
        Err("Error: --profile must be a single letter A through Z.".to_string())
    );
}

fn agent(id: &str, label: &str, command: &str, direct: &[char]) -> DiscoveryAgent {
    DiscoveryAgent {
        id: id.to_string(),
        label: label.to_string(),
        command: command.to_string(),
        direct_profiles: direct.to_vec(),
    }
}

#[test]
fn discovery_lists_exact_ids_for_duplicate_backend_commands() {
    let agents = vec![
        agent("codex-main", "Codex Main", "codex --model m5", &['A', 'B']),
        agent("codex-review", "Codex Review", "codex --model m5", &['A', 'C']),
    ];
    let rendered = render_coding_agent_discovery(&agents);
    assert!(rendered.contains("- codex-main"));
    assert!(rendered.contains("- codex-review"));
    assert!(rendered.contains("self-handoff-and-switch --coding-agent=codex-main --profile B"));
    assert!(rendered.contains("self-handoff-and-switch --coding-agent=codex-review --profile C"));
    assert!(!rendered.contains("self-handoff-and-switch --coding-agent codex --profile"));
}

#[test]
fn discovery_reports_direct_profiles_and_fallback_rule() {
    let agents = vec![agent("codex-main", "Codex Main", "codex", &['A', 'D'])];
    let rendered = render_coding_agent_discovery(&agents);
    assert!(rendered.contains("profiles without fallback: A, D"));
    assert!(rendered.contains("other A-Z letters fall back to the nearest lower profile listed"));
    assert!(!rendered.contains("self-handoff-and-switch --coding-agent=codex-main --profile B"));
}

#[test]
fn discovery_shell_quotes_copy_ids_with_spaces_and_metacharacters() {
    let agents = vec![agent("codex main; Remove-Item *", "Codex Main", "codex", &[])];
    let rendered = render_coding_agent_discovery(&agents);
    assert!(rendered.contains("self-handoff-and-switch --coding-agent='codex main; Remove-Item *' --profile A"));
}

#[test]
fn discovery_full_text() {
    assert_eq!(render_coding_agent_discovery(&Vec::new()), "No configured coding agents found.");
    let agents = vec![agent("a", "  ", "run", &[]), agent("b", "Bee", "go", &['A', 'C'])];
    let expected = [
        "Configured coding agents for self-handoff-and-switch:",
        "Use AgentConfig.id exactly with --coding-agent. Use --profile A-Z, or omit --profile to keep the caller's current effective profile.",
        "",
        "- a",
        "  command: run",
        "  profiles without fallback: A",
        "  fallback: other A-Z letters fall back to the nearest lower profile listed above, ending at A.",
        "  copy:",
        "    self-handoff-and-switch --coding-agent=a --profile A",
        "",
        "- b",
        "  label: Bee",
        "  command: go",
        "  profiles without fallback: A, C",
        "  fallback: other A-Z letters fall back to the nearest lower profile listed above, ending at A.",
        "  copy:",
        "    self-handoff-and-switch --coding-agent=b --profile A",
        "    self-handoff-and-switch --coding-agent=b --profile C",
    ]
    .join("\n");
    assert_eq!(render_coding_agent_discovery(&agents), expected);
}

#[test]
fn copy_quoting() {
    assert_eq!(quote_coding_agent_id_for_copy("codex_1.2:x/y\\z@h-q"), "codex_1.2:x/y\\z@h-q");
    assert_eq!(quote_coding_agent_id_for_copy(""), "''");
    assert_eq!(single_quote_arg_for_copy("it's"), "'it'\\''s'");
    assert_eq!(quote_coding_agent_id_for_copy("a b"), "'a b'");
}

#[test]
fn switch_request_checks_root_profile_then_token() {
    let args = |root: Option<&str>, profile: Option<&str>, token: Option<&str>| SelfSwitchArgs {
        token: token.map(|t| t.to_string()),
        root: root.map(|r| r.to_string()),
        coding_agent: Some("codex-main".to_string()),
        profile: profile.map(|p| p.to_string()),
        list_coding_agents: false,
        timeout: 15,
    };
    let f = switch_request(&args(None, Some("zz"), None), &None, &None).err().unwrap();
    assert_eq!((f.exit_code, f.message.as_str()), (1, "Error: --root is required."));
    let f = switch_request(&args(Some("r"), Some("zz"), None), &None, &None).err().unwrap();
    assert_eq!(f.message, "Error: --profile must be a single letter A through Z.");
    let f = switch_request(&args(Some("r"), Some("c"), None), &None, &None).err().unwrap();
    assert!(f.message.contains("--token is required"));
    let ok = switch_request(
        &args(Some("r"), Some("c"), Some("11111111-1111-1111-1111-111111111111")),
        &None,
        &None,
    )
    .ok()
    .unwrap();
    assert_eq!(ok.profile.as_deref(), Some("C"));
    assert!(!ok.is_root);
    let ok = switch_request(&args(Some("r"), None, Some("host")), &Some("host".to_string()), &None)
        .ok()
        .unwrap();
    assert!(ok.is_root);
    assert_eq!(ok.coding_agent.as_deref(), Some("codex-main"));
}

// ── token shape check ────────────────────────────────────────────────────

#[test]
fn validate_cli_token_does_not_echo_invalid_input() {
    let supplied = "super-secret-token-with-hidden-garbage";
    let err = validate_cli_token(&Some(supplied.to_string()), &None, &None).unwrap_err();
    assert!(err.contains("invalid token supplied"));
    assert!(!err.contains(supplied));
    assert!(!err.contains(&supplied[..8]));
    let legacy_phrase = ["Session", "Credentials"].join(" ");
    assert!(!err.contains(&legacy_phrase));
    assert!(!err.to_ascii_lowercase().contains("fallback"));
    assert!(!err.to_ascii_lowercase().contains("visible"));
}

#[test]
fn validate_cli_token_missing_token_documents_env_only() {
    let err = validate_cli_token(&None, &None, &None).unwrap_err();
    assert!(err.contains("AGENTSCOMMANDER_TOKEN"));
    assert!(err.contains("restart or respawn"));
    let legacy_phrase = ["Session", "Credentials"].join(" ");
    assert!(!err.contains(&legacy_phrase));
    assert!(!err.to_ascii_lowercase().contains("fallback"));
    assert!(!err.to_ascii_lowercase().contains("visible"));
}

#[test]
fn token_shapes_and_root_tokens() {
    let ok = |t: &str| validate_cli_token(&Some(t.to_string()), &None, &None);
    assert_eq!(ok("67e55044-10b1-426f-9247-bb680e5fe0c8"), Ok(("67e55044-10b1-426f-9247-bb680e5fe0c8".to_string(), false)));
    assert!(ok("67e5504410b1426f9247bb680e5fe0c8").is_ok());
    assert!(ok("{67e55044-10b1-426f-9247-bb680e5fe0c8}").is_ok());
    assert!(ok("URN:uuid:67E55044-10B1-426F-9247-BB680E5FE0C8").is_ok());
    assert!(ok("67e55044-10b1-426f-9247-bb680e5fe0cg").is_err());
    assert!(ok("67e55044_10b1-426f-9247-bb680e5fe0c8").is_err());
    assert!(validate_cli_token(&Some(String::new()), &None, &None).is_err());
    assert_eq!(
        validate_cli_token(&Some("root-x".to_string()), &Some("root-x".to_string()), &None),
        Ok(("root-x".to_string(), true))
    );
    assert_eq!(
        validate_cli_token(&Some("m-1".to_string()), &None, &Some("  m-1\n".to_string())),
        Ok(("m-1".to_string(), true))
    );
    let f = require_token_and_root(&Some("m-1".to_string()), &None, &None, &Some("m-1".to_string()))
        .err()
        .unwrap();
    assert_eq!(f.message, "Error: --root is required. Specify your agent's root directory.");
}
