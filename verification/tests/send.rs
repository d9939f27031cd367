use agentscommander::send::{
    bounded_pty_text, check_command_and_profile, check_payload_flags, choose_outbox_dir,
    delivery_confirmation_step, pty_confirmation_report, pty_preflight, queued_receipt_line,
    reason_code_for_cli, requested_pty_agent, require_send_root, response_wait_step,
    routing_check, routing_verdict, send_preflight, sender_for_root,
    validate_filename_only, validate_root_agent_delivery_kind, with_root_project, ConfirmStep,
    PtyInputPublicStatus, PtyInputReasonCode, RejectionNote, ResponseStep, RoutingCheck, SendArgs,
    PTY_INPUT_MAX_BYTES, ROOT_AGENT_SENDER,
};
use agentscommander::send::{notification_clamp, notification_pty_overhead, PtyFraming, REQUEST_ID_LEN};

const SESSION: &str = "11111111-1111-1111-1111-111111111111";

fn args() -> SendArgs {
    SendArgs {
        token: Some(SESSION.to_string()),
        to: "proj-a:wg-1-dev-team/dev-rust".to_string(),
        send: Some("20260704-000000-wg1-a-to-wg1-b-x.md".to_string()),
        mode: "wake".to_string(),
        get_output: false,
        command: None,
        pty_input: None,
        pty_input_stdin: false,
        agent: "auto".to_string(),
        profile: None,
        timeout: 300,
        confirm_timeout: 90,
        root: Some("/proj/.ac/wg-1-dev-team/__agent_dev-rust".to_string()),
        outbox: None,
    }
}

#[test]
fn root_agent_sender_uses_reserved_constant() {
    assert_eq!(
        sender_for_root("C:/tmp/agentscommander/ac-root-agent", true),
        ROOT_AGENT_SENDER
    );
    assert_ne!(
        sender_for_root("C:/tmp/agentscommander/_agent_root-agent", false),
        ROOT_AGENT_SENDER
    );
}

#[test]
fn sender_for_non_root_is_the_path_name() {
    assert_eq!(
        sender_for_root("proj:wg-1-team/dev-rust", false),
        "proj:wg-1-team/dev-rust"
    );
}

#[test]
fn send_rejects_send_path_for_wg() {
    let filename = r"messaging\20260524-040000-wg1-a-to-wg1-b-x.md";

    assert!(validate_filename_only(filename).is_err());
}

#[test]
fn send_rejects_send_path_for_root() {
    let filename = r"messaging\20260524-040000-root-to-wg1-tech-lead-x.md";

    assert!(validate_filename_only(filename).is_err());
}

#[test]
fn filename_only_accepts_bare_names_and_refuses_paths() {
    assert!(validate_filename_only("20260524-040000-wg1-a-to-wg1-b-x.md").is_ok());
    assert!(validate_filename_only("messaging/x.md").is_err());
    assert!(validate_filename_only("").is_err());
    assert!(validate_filename_only(".").is_err());
    assert!(validate_filename_only("..").is_err());
}

#[test]
fn root_agent_command_clear_and_compact_are_rejected_before_outbox_write() {
    for command in ["clear", "compact"] {
        assert_eq!(
            validate_root_agent_delivery_kind(true, Some(command)),
            Err("Root Agent messaging is file-based; use --send with a root-to-orchestrator Markdown file, not --command")
        );
    }
}

#[test]
fn non_root_command_behavior_is_unchanged() {
    assert_eq!(
        validate_root_agent_delivery_kind(false, Some("compact")),
        Ok(())
    );
}

#[test]
fn queued_receipt_prints_requested_agent_and_profile_when_flags_present() {
    assert_eq!(
        queued_receipt_line("m-1", "codex", &Some("C".to_string())),
        "Queued: m-1 (agent=codex, profile=C)"
    );
    assert_eq!(
        queued_receipt_line("m-1", "auto", &Some("C".to_string())),
        "Queued: m-1 (agent=auto, profile=C)"
    );
    assert_eq!(queued_receipt_line("m-1", "auto", &None), "Queued: m-1");
    assert_eq!(
        queued_receipt_line("m-1", "codex", &None),
        "Queued: m-1 (agent=codex)"
    );
}

#[test]
fn send_requires_root() {
    let mut a = args();
    a.root = None;
    let f = require_send_root(&a).unwrap_err();
    assert_eq!(f.exit_code, 1);
    assert_eq!(
        f.message,
        "Error: --root is required. Specify your agent's root directory."
    );
    assert_eq!(
        require_send_root(&args()).unwrap(),
        "/proj/.ac/wg-1-dev-team/__agent_dev-rust"
    );
}

#[test]
fn preflight_checks_delivery_kind_token_and_mode_in_order() {
    let mut a = args();
    a.command = Some("clear".to_string());
    a.token = None;
    let f = send_preflight(&a, true, &None, &None).unwrap_err();
    assert!(f.message.starts_with("Error: Root Agent messaging is file-based"));

    let mut a = args();
    a.token = Some("not-a-uuid".to_string());
    a.mode = "queue".to_string();
    let f = send_preflight(&a, false, &None, &None).unwrap_err();
    assert!(f.message.contains("token"), "{}", f.message);

    let mut a = args();
    a.mode = "queue".to_string();
    let f = send_preflight(&a, false, &None, &None).unwrap_err();
    assert_eq!(f.message, "Error: invalid mode 'queue'. Valid: wake");

    assert_eq!(send_preflight(&args(), false, &None, &None).unwrap(), false);
    let root_token = Some(SESSION.to_string());
    assert_eq!(send_preflight(&args(), false, &root_token, &None).unwrap(), true);
}

#[test]
fn routing_picks_one_check() {
    assert_eq!(routing_check(true, true, true), RoutingCheck::RootAgentTarget);
    assert_eq!(routing_check(false, true, true), RoutingCheck::CoordinatorToRoot);
    assert_eq!(routing_check(false, false, false), RoutingCheck::TeamMembership);
    assert_eq!(routing_check(false, false, true), RoutingCheck::Unchecked);
}

#[test]
fn routing_refusals_name_the_sender_or_target() {
    assert!(routing_verdict(RoutingCheck::TeamMembership, true, "a", "b").is_ok());
    assert!(routing_verdict(RoutingCheck::Unchecked, false, "a", "b").is_ok());
    let f = routing_verdict(RoutingCheck::TeamMembership, false, "p/a", "p/b").unwrap_err();
    assert_eq!(
        f.message,
        "Error: routing rejected \u{2014} 'p/a' cannot reach 'p/b'. Check team membership and orchestrator rules."
    );
    let f = routing_verdict(RoutingCheck::RootAgentTarget, false, "root", "proj-a/tech-lead")
        .unwrap_err();
    assert!(f.message.contains("'proj-a/tech-lead' is not a verified Room orchestrator replica"));
    let f = routing_verdict(RoutingCheck::CoordinatorToRoot, false, "proj-a:wg-1-dev-team/dev-rust", "x")
        .unwrap_err();
    assert!(f.message.contains("cannot message 'agentscommander://root-agent'"));
}

#[test]
fn payload_flags_are_exclusive() {
    let mut a = args();
    a.command = Some("clear".to_string());
    assert_eq!(
        check_payload_flags(&a).unwrap_err().message,
        "Error: --send and --command are mutually exclusive"
    );
    assert!(check_payload_flags(&args()).is_ok());
    let mut a = args();
    a.send = Some("dir/x.md".to_string());
    assert!(check_payload_flags(&a).unwrap_err().message.starts_with("Error: "));
}

#[test]
fn command_and_profile_checks() {
    let mut a = args();
    a.send = None;
    assert_eq!(
        check_command_and_profile(&a, true).unwrap_err().message,
        "Error: --send or --command is required"
    );
    let mut a = args();
    a.command = Some("reset".to_string());
    assert_eq!(
        check_command_and_profile(&a, true).unwrap_err().message,
        "Error: unsupported command 'reset'. Allowed: clear, compact"
    );
    let mut a = args();
    a.profile = Some("c".to_string());
    assert_eq!(check_command_and_profile(&a, false).unwrap(), Some("C".to_string()));
    for bad in ["cc", "1", ""] {
        let mut a = args();
        a.profile = Some(bad.to_string());
        assert_eq!(
            check_command_and_profile(&a, false).unwrap_err().message,
            "Error: --profile must be a single letter A through Z"
        );
    }
    assert_eq!(check_command_and_profile(&args(), false).unwrap(), None);
}

#[test]
fn outbox_choice() {
    let local = "/r/.ac/outbox";
    assert_eq!(choose_outbox_dir(&Some("/x".to_string()), true, &Some("/app".to_string()), local), "/x");
    assert_eq!(choose_outbox_dir(&None, true, &Some("/app".to_string()), local), "/app");
    assert_eq!(choose_outbox_dir(&None, true, &None, local), local);
    assert_eq!(choose_outbox_dir(&None, false, &Some("/app".to_string()), local), local);
}

#[test]
fn root_project_is_added_once() {
    let paths = vec!["/a".to_string()];
    assert_eq!(with_root_project(paths.clone(), None, false), paths);
    assert_eq!(with_root_project(paths.clone(), Some("/a".to_string()), false), paths);
    assert_eq!(with_root_project(paths.clone(), Some("/b".to_string()), true), paths);
    assert_eq!(
        with_root_project(paths.clone(), Some("/b".to_string()), false),
        vec!["/a".to_string(), "/b".to_string()]
    );
}

#[test]
fn bounded_reader_is_exact() {
    let exact = vec![b'a'; PTY_INPUT_MAX_BYTES];
    assert_eq!(bounded_pty_text(exact).unwrap().len(), PTY_INPUT_MAX_BYTES);
    let over = vec![b'a'; PTY_INPUT_MAX_BYTES + 1];
    assert_eq!(bounded_pty_text(over), Err("payload_too_large"));
    assert_eq!(bounded_pty_text(vec![0xff, 0xfe]), Err("invalid_text"));
    assert_eq!(bounded_pty_text("héllo".as_bytes().to_vec()).unwrap(), "héllo");
}

#[test]
fn pty_preflight_refuses_mixed_payload_and_root_tokens() {
    let mut a = args();
    a.get_output = true;
    assert_eq!(pty_preflight(&a, &None, &None).unwrap_err().message, "Error: mixed_payload");
    let mut a = args();
    a.outbox = Some("custom".to_string());
    assert_eq!(pty_preflight(&a, &None, &None).unwrap_err().message, "Error: mixed_payload");
    let root_token = Some(SESSION.to_string());
    assert_eq!(
        pty_preflight(&args(), &root_token, &None).unwrap_err().message,
        "Error: session_token_required"
    );
    assert_eq!(pty_preflight(&args(), &None, &None).unwrap(), SESSION);
    assert_eq!(requested_pty_agent("auto"), None);
    assert_eq!(requested_pty_agent("codex"), Some("codex".to_string()));
}

#[test]
fn reason_codes_have_their_wire_names() {
    assert_eq!(reason_code_for_cli(PtyInputReasonCode::InvalidEnvelope), "invalid_envelope");
    assert_eq!(reason_code_for_cli(PtyInputReasonCode::Busy), "busy");
    assert_eq!(
        reason_code_for_cli(PtyInputReasonCode::DaemonRestartAfterActuation),
        "daemon_restart_after_actuation"
    );
    assert_eq!(reason_code_for_cli(PtyInputReasonCode::ArtifactUnclaimed), "artifact_unclaimed");
}

#[test]
fn pty_reports_follow_the_terminal_status() {
    let r = pty_confirmation_report(&Ok((PtyInputPublicStatus::Injected, None)), "op-1");
    assert_eq!((r.exit_code, r.to_stdout, r.line.as_str()), (0, true, "Injected: op-1"));
    let r = pty_confirmation_report(&Ok((PtyInputPublicStatus::Rejected, None)), "op-1");
    assert_eq!(r.line, "Rejected: op-1 code=invalid_envelope");
    assert_eq!(r.exit_code, 1);
    let r = pty_confirmation_report(
        &Ok((PtyInputPublicStatus::Rejected, Some(PtyInputReasonCode::Busy))),
        "op-1",
    );
    assert_eq!(r.line, "Rejected: op-1 code=busy");
    let r = pty_confirmation_report(&Ok((PtyInputPublicStatus::Indeterminate, None)), "op-1");
    assert_eq!(r.line, "Indeterminate: op-1 code=terminal_store_failed; do not resubmit");
    let r = pty_confirmation_report(&Ok((PtyInputPublicStatus::Pending, None)), "op-1");
    assert_eq!(r.line, "Indeterminate: op-1 code=invalid_artifact");
    let r = pty_confirmation_report(&Err("confirmation_timeout".to_string()), "op-1");
    assert!(r.line.starts_with("Confirmation timeout: operation op-1 remains queued"));
    let r = pty_confirmation_report(&Err("invalid_artifact".to_string()), "op-1");
    assert_eq!(r.line, "Indeterminate: op-1 code=invalid_artifact; do not resubmit");
    assert!(!r.to_stdout);
}

#[test]
fn delivery_step_accepts_delivered_record() {
    let step = delivery_confirmation_step(
        true,
        &RejectionNote::Absent,
        true,
        "msg-1",
        "wake",
        "project:wg-1-team/agent",
        0,
        "/o",
    );
    match step {
        ConfirmStep::Delivered(line) => {
            assert_eq!(line, "Delivered: msg-1 (mode=wake, to=project:wg-1-team/agent)")
        }
        _ => panic!("expected delivered"),
    }
}

#[test]
fn delivery_step_reports_rejection_reason() {
    let step = delivery_confirmation_step(
        false,
        &RejectionNote::Reason("bad route\n".to_string()),
        false,
        "msg-2",
        "wake",
        "project:wg-1-team/agent",
        10,
        "/o",
    );
    match step {
        ConfirmStep::Failed(e) => assert!(e.contains("message rejected: bad route")),
        _ => panic!("expected failure"),
    }
    match delivery_confirmation_step(false, &RejectionNote::Unreadable, false, "m", "wake", "t", 1, "/o") {
        ConfirmStep::Failed(e) => assert_eq!(e, "message rejected: unknown reason"),
        _ => panic!("expected failure"),
    }
}

#[test]
fn delivery_confirmation_reports_pending_outbox_on_timeout() {
    match delivery_confirmation_step(false, &RejectionNote::Absent, true, "msg-3", "wake", "t", 90, "/tmp/out") {
        ConfirmStep::Failed(e) => assert_eq!(
            e,
            "delivery confirmation timeout after 90s (message msg-3 may still be pending in /tmp/out)"
        ),
        _ => panic!("expected failure"),
    }
    assert!(matches!(
        delivery_confirmation_step(false, &RejectionNote::Absent, false, "m", "wake", "t", 90, "/o"),
        ConfirmStep::Wait
    ));
}

#[test]
fn response_step_reads_present_file_at_zero_timeout() {
    assert!(matches!(response_wait_step(true, true, 0), ResponseStep::Read));
    assert!(matches!(response_wait_step(false, false, 5), ResponseStep::Wait));
    match response_wait_step(false, true, 300) {
        ResponseStep::TimedOut(e) => assert_eq!(e, "timeout waiting for response after 300s"),
        _ => panic!("expected timeout"),
    }
}

#[test]
fn self_clear_sender_for_root_agent_uses_reserved_constant() {
    assert_eq!(
        sender_for_root("C:/tmp/agentscommander/ac-root-agent", true),
        ROOT_AGENT_SENDER
    );
}

#[test]
fn self_clear_sender_for_non_root_is_path_fqn() {
    let sender = sender_for_root("proj:wg-1-team/dev-rust", false);
    assert_ne!(sender, ROOT_AGENT_SENDER);
    assert_eq!(sender, "proj:wg-1-team/dev-rust");
}

#[test]
fn self_restart_sender_for_root_agent_uses_reserved_constant() {
    assert_eq!(
        sender_for_root("C:/tmp/agentscommander/ac-root-agent", true),
        ROOT_AGENT_SENDER
    );
}

fn framing() -> PtyFraming {
    PtyFraming { wrap_fixed: 120, response_marker_fixed: 48, safe_max: 1024 }
}

#[test]
fn get_output_does_not_tighten_live_pty_clamp() {
    let f = framing();
    let sender_len = "project:wg-1-team/agent".len();
    let live_overhead = notification_pty_overhead(&f, sender_len, false);
    let plain_overhead = f.wrap_fixed + sender_len;
    assert_eq!(live_overhead, plain_overhead);
    let body_len = f.safe_max - plain_overhead;
    assert!(body_len + live_overhead <= f.safe_max);
    assert!(notification_clamp(&f, body_len, sender_len).is_ok());
    let tightened_overhead = plain_overhead + f.response_marker_fixed + 2 * REQUEST_ID_LEN;
    assert_eq!(notification_pty_overhead(&f, sender_len, true), tightened_overhead);
    assert!(body_len + tightened_overhead > f.safe_max);
}

#[test]
fn notification_clamp_names_the_sizes() {
    let f = framing();
    let m = notification_clamp(&f, 900, 10).unwrap_err();
    assert_eq!(
        m,
        "Error: notification exceeds PTY-safe length (body 900 + overhead 130 > 1024). Shorten slug or move room to a shallower path."
    );
}
