use agentscommander::role_experiment::{
    is_override_workgroup, is_replica_role_file, source_matrix_path, variant_matrix_path,
    next_workgroup_number, reconcile_attempt, run_task_text, run_workgroup_name, wg_number_of,
    attempt_ownership, attempt_prompt_text, attempt_should_run, begin_attempt,
    build_attempt_injection, fake_attempt_result, fake_run_warnings, finish_attempt,
    generated_run_id, role_diff_warning, attempt_state_id, default_run_artifact_paths, validate_ownership_matches_attempt,
    validate_ownership_pair, validate_report_artifacts, AttemptOwnershipArtifact, ReportArtifact,
    RunArtifact, RunExecutionArtifact, RunSuiteArtifact, RunVariantArtifact, RunWorkgroupArtifact,
    build_attempts, build_report_artifact, is_safe_prompt_id, line_diff, markdown_table_cell,
    parse_prompt_suite_bytes, parse_prompt_suite_text, render_report_markdown,
    summarize_run_status, validate_replicates, validate_run_id, variant_agent_name, PromptCase,
    VariantMetadata, validate_report_format, validate_size_warning, dry_run_size_warning,
    variant_diff_outcome, attempt_output_name, next_attempt_output_name, report_status_total,
    fake_output_text, validate_run_mode, check_state_entry, check_ownership_schema, check_variant_count, new_variant_metadata,
    new_experiment_metadata, check_source_role_utf8, check_role_file_utf8, record_variant_role,
    check_run_args, run_variant_artifacts, dry_run_artifact, check_resume_artifacts,
    ParsedPromptSuite, count_attempt_statuses, init_preflight, init_metadata, MatrixState,
    VariantCheck, check_variant_name, source_presence_errors, active_variant_session_error,
    replica_override_error, new_run_record, resume_run_record, recorded_variants, RunArgs, ReportSummaryArtifact, AttemptExecutionResult,
};

fn prompt(id: &str, title: &str, line: usize) -> PromptCase {
    PromptCase {
        id: id.to_string(),
        title: title.to_string(),
        prompt: format!("do {}", id),
        tags: vec![],
        expected_behaviors: vec![],
        line,
    }
}

fn variant(name: &str) -> VariantMetadata {
    VariantMetadata {
        schema_version: 1,
        name: name.to_string(),
        source_agent: "alpha".to_string(),
        agent_name: format!("alpha-{}", name),
        matrix_path: format!("/p/.ac/_agent_alpha-{}", name),
        role_path: format!("/p/.ac/_agent_alpha-{}/Role.md", name),
        role_sha256: "00".to_string(),
        created_at: "2026-06-01T18:15:00Z".to_string(),
        updated_at: "2026-06-01T18:15:00Z".to_string(),
    }
}

#[test]
fn run_id_validation_accepts_only_phase2_shape() {
    assert!(validate_run_id("20260601-181500").is_ok());
    assert!(validate_run_id("20260601-181500-01").is_ok());
    assert!(validate_run_id("20260601-181500-99").is_ok());
    assert!(validate_run_id("2026060-181500").is_err());
    assert!(validate_run_id("20260601181500").is_err());
    assert!(validate_run_id("20260601_181500").is_err());
    assert!(validate_run_id("20260601-18150x").is_err());
    assert!(validate_run_id("20260601-181500-00").is_err());
    assert!(validate_run_id("20260601-181500-100").is_err());
}

#[test]
fn replicates_range() {
    assert!(validate_replicates(0).is_err());
    assert!(validate_replicates(1).is_ok());
    assert!(validate_replicates(100).is_ok());
    assert_eq!(validate_replicates(101).unwrap_err()[0].code, "replicates_invalid");
}

#[test]
fn prompt_ids_and_agent_names() {
    assert!(is_safe_prompt_id("case-01_a"));
    assert!(!is_safe_prompt_id("Case"));
    assert!(!is_safe_prompt_id(""));
    assert!(!is_safe_prompt_id(&"a".repeat(81)));
    assert!(is_safe_prompt_id(&"a".repeat(80)));
    assert_eq!(variant_agent_name("alpha", "control"), "alpha-control");
}

#[test]
fn line_diff_marks_changed_added_and_kept_lines() {
    let (diff, stats) = line_diff("a/Role.md", "b/Role.md", "one\ntwo\n", "one\nTWO\nthree\n");
    assert_eq!(
        diff,
        "--- a/Role.md\n+++ b/Role.md\n one\n-two\n+TWO\n+three\n"
    );
    assert_eq!((stats.added_lines, stats.removed_lines, stats.changed_lines), (2, 1, 3));
    assert!(!stats.identical);
    let (diff, stats) = line_diff("l", "r", "same", "same");
    assert_eq!(diff, "--- l\n+++ r\n");
    assert!(stats.identical);
}

#[test]
fn attempts_are_planned_prompt_major() {
    let prompts = vec![prompt("p1", "One", 1), prompt("p2", "Two", 2)];
    let variants = vec![variant("control"), variant("test")];
    let attempts = build_attempts("20260601-181500", &prompts, &variants, 2);
    assert_eq!(attempts.len(), 8);
    assert_eq!(attempts[0].attempt_id, "p1__control__r1");
    assert_eq!(attempts[1].attempt_id, "p1__control__r2");
    assert_eq!(attempts[2].attempt_id, "p1__test__r1");
    assert_eq!(attempts[7].attempt_id, "p2__test__r2");
    assert!(attempts.iter().all(|a| a.status == "planned"));
    assert_eq!(summarize_run_status(&attempts, true), "dry_run");
    assert_eq!(summarize_run_status(&attempts, false), "completed");
}

#[test]
fn run_status_takes_the_first_status_present_in_priority_order() {
    let prompts = vec![prompt("p1", "One", 1)];
    let variants = vec![variant("control")];
    let mut attempts = build_attempts("20260601-181500", &prompts, &variants, 3);
    attempts[0].status = "completed".to_string();
    attempts[1].status = "failed".to_string();
    attempts[2].status = "timed_out".to_string();
    assert_eq!(summarize_run_status(&attempts, false), "failed");
    attempts[2].status = "running".to_string();
    assert_eq!(summarize_run_status(&attempts, false), "running");
}

#[test]
fn table_cells_are_escaped() {
    assert_eq!(markdown_table_cell("a|b\\c\r\nd"), "a\\|b\\\\c  d");
}

#[test]
fn report_counts_and_markdown() {
    let prompts = vec![prompt("p1", "One | more", 1)];
    let variants = vec![variant("control")];
    let mut attempts = build_attempts("20260601-181500", &prompts, &variants, 2);
    attempts[1].status = "failed".to_string();
    let report = build_report_artifact(
        "20260601-181500",
        "exp",
        "/runs/20260601-181500",
        "2026-06-01T18:15:00Z",
        &prompts,
        &variants,
        2,
        &attempts,
        false,
        None,
    );
    assert_eq!(report.status, "failed");
    assert_eq!(report.summary.attempt_count, 2);
    assert_eq!(report.summary.planned_attempt_count, 1);
    assert_eq!(report.summary.failed_attempt_count, 1);
    assert_eq!(report.variants[0].counts.failed, 1);
    assert_eq!(report.prompts[0].counts.planned, 1);
    let md = render_report_markdown(&report);
    assert!(md.starts_with("# Role Experiment Run Report\n\nExperiment: exp\nRun ID: 20260601-181500\nStatus: failed\n"));
    assert!(md.contains("- Planned attempts: 1\n"));
    assert!(md.contains("| failed | 1 |\n"));
    assert!(md.contains("| control | alpha-control | 1 | 0 | 0 | 1 | 0 | 0 | 0 |\n"));
    assert!(md.contains("| p1 | One \\| more | 1 | 0 | 0 | 1 | 0 | 0 | 0 |\n"));
    assert!(md.contains("\n## Notes\n\n"));
}

#[test]
fn prompt_suite_parses_cases_in_order() {
    let text = "{\"id\":\"p1\",\"title\":\" One \",\"prompt\":\"Do it\",\"tags\":[\"a\",\"b\"]}\n\n  \n{\"id\":\"p2\",\"title\":\"Two\",\"prompt\":\"Again\",\"expectedBehaviors\":[\"x\"]}\n";
    let cases = parse_prompt_suite_text(text, "suite.jsonl").unwrap();
    assert_eq!(cases.len(), 2);
    assert_eq!(cases[0].id, "p1");
    assert_eq!(cases[0].title, "One");
    assert_eq!(cases[0].tags, vec!["a".to_string(), "b".to_string()]);
    assert_eq!(cases[0].line, 1);
    assert_eq!(cases[1].line, 4);
    assert_eq!(cases[1].expected_behaviors, vec!["x".to_string()]);
}

#[test]
fn prompt_suite_reports_every_bad_line() {
    let text = "not json\n[1,2]\n{\"id\":\"p1\",\"title\":\"T\"}\n{\"id\":\"Bad Id\",\"title\":\"T\",\"prompt\":\"P\"}\n{\"id\":\"p2\",\"title\":\"T\",\"prompt\":\"P\",\"tags\":\"x\"}\n{\"id\":\"p3\",\"title\":\"T\",\"prompt\":\"P\",\"tags\":[1]}\n{\"id\":\"p4\",\"title\":\"  \",\"prompt\":\"P\"}\n";
    let errors = parse_prompt_suite_text(text, "suite.jsonl").unwrap_err();
    assert_eq!(errors.len(), 7);
    assert!(errors.iter().all(|e| e.code == "prompt_suite_unparseable"));
    assert!(errors[0].message.starts_with("Prompt suite line 1 is invalid JSON: "));
    assert_eq!(errors[1].message, "Prompt suite line 2 must be a JSON object");
    assert_eq!(errors[2].message, "Prompt suite line 3 is missing required string field prompt");
    assert_eq!(errors[2].field.as_deref(), Some("prompt"));
    assert_eq!(errors[2].line, Some(3));
    assert_eq!(
        errors[3].message,
        "Prompt suite line 4 has invalid id 'Bad Id'; use lowercase ASCII letters, digits, hyphen, or underscore"
    );
    assert_eq!(errors[4].message, "Prompt suite line 5 field tags must be an array of strings");
    assert_eq!(errors[5].message, "Prompt suite line 6 field tags must contain only strings");
    assert_eq!(errors[6].message, "Prompt suite line 7 is missing required string field title");
}

#[test]
fn prompt_suite_duplicate_names_previous_line() {
    let text = "{\"id\":\"p1\",\"title\":\"A\",\"prompt\":\"P\"}\n{\"id\":\"p1\",\"title\":\"B\",\"prompt\":\"P\"}\n{\"id\":\"p1\",\"title\":\"C\",\"prompt\":\"P\"}\n";
    let errors = parse_prompt_suite_text(text, "suite.jsonl").unwrap_err();
    assert_eq!(errors.len(), 2);
    assert_eq!(errors[0].code, "prompt_suite_duplicate_id");
    assert_eq!(
        errors[0].message,
        "Prompt suite duplicate id 'p1' at line 2; first seen at line 1"
    );
    assert_eq!(
        errors[1].message,
        "Prompt suite duplicate id 'p1' at line 3; first seen at line 2"
    );
}

#[test]
fn prompt_suite_without_cases_is_empty() {
    let errors = parse_prompt_suite_text("\n  \n", "suite.jsonl").unwrap_err();
    assert_eq!(errors.len(), 1);
    assert_eq!(errors[0].code, "prompt_suite_empty");
    assert_eq!(errors[0].path.as_deref(), Some("suite.jsonl"));
}

#[test]
fn prompt_suite_bytes_are_hashed_and_must_be_utf8() {
    let bytes = b"{\"id\":\"p1\",\"title\":\"A\",\"prompt\":\"P\"}\n".to_vec();
    let parsed = parse_prompt_suite_bytes(bytes, "suite.jsonl", "/abs/suite.jsonl").unwrap();
    assert_eq!(parsed.path, "/abs/suite.jsonl");
    assert_eq!(parsed.sha256.len(), 64);
    assert_eq!(parsed.prompts.len(), 1);
    let abc = parse_prompt_suite_bytes(b"abc".to_vec(), "s", "s").unwrap_err();
    assert_eq!(abc[0].code, "prompt_suite_unparseable");
    let digest = parse_prompt_suite_bytes(
        b"{\"id\":\"p\",\"title\":\"t\",\"prompt\":\"x\"}".to_vec(),
        "s",
        "s",
    )
    .unwrap()
    .sha256;
    assert!(digest.chars().all(|c| c.is_ascii_hexdigit() && !c.is_ascii_uppercase()));
    let bad = parse_prompt_suite_bytes(vec![0xff, b'\n'], "s", "s").unwrap_err();
    assert_eq!(bad.len(), 1);
    assert!(bad[0].message.starts_with("Prompt suite is not valid UTF-8: "));
}

#[test]
fn sha256_of_known_input() {
    let parsed = parse_prompt_suite_bytes(
        b"{\"id\":\"p\",\"title\":\"t\",\"prompt\":\"x\"}".to_vec(),
        "s",
        "s",
    )
    .unwrap();
    assert_eq!(
        parsed.sha256,
        "9e6b7d51a03693f97f8fd9262eb2187dadb4b4e2a3b1c82caba9e592c1b6eff8"
    );
}

fn stored_run() -> (RunArtifact, ReportArtifact) {
    let prompts = vec![prompt("p1", "One", 1)];
    let variants = vec![variant("control")];
    let attempts = build_attempts("20260601-181500", &prompts, &variants, 2);
    let report = build_report_artifact(
        "20260601-181500",
        "exp",
        "/e/runs/20260601-181500",
        "2026-06-01T18:15:00Z",
        &prompts,
        &variants,
        2,
        &attempts,
        true,
        None,
    );
    let run = RunArtifact {
        schema_version: 1,
        run_id: "20260601-181500".to_string(),
        project: "proj".to_string(),
        experiment: "exp".to_string(),
        status: "dry_run".to_string(),
        dry_run: true,
        created_at: "2026-06-01T18:15:00Z".to_string(),
        updated_at: "2026-06-01T18:15:00Z".to_string(),
        suite: RunSuiteArtifact { path: "/s".to_string(), sha256: "00".to_string(), prompt_count: 1 },
        seed: 7,
        seed_provided: false,
        replicates: 2,
        variants: vec![RunVariantArtifact {
            name: "control".to_string(),
            agent_name: "alpha-control".to_string(),
            role_sha256: "00".to_string(),
            role_path: "/r".to_string(),
        }],
        attempt_count: 2,
        artifacts: default_run_artifact_paths(),
        execution: None,
        workgroup: None,
        warnings: vec![],
    };
    (run, report)
}

#[test]
fn stored_run_and_report_agree() {
    let (run, report) = stored_run();
    assert!(validate_report_artifacts("exp", "/e/runs/20260601-181500", "20260601-181500", &run, &report).is_ok());
}

#[test]
fn stored_run_mismatches_are_all_reported() {
    let (mut run, report) = stored_run();
    run.dry_run = false;
    run.attempt_count = 3;
    run.status = "weird".to_string();
    let errors =
        validate_report_artifacts("other", "/elsewhere", "20260601-181500", &run, &report).unwrap_err();
    let messages: Vec<&str> = errors.iter().map(|e| e.message.as_str()).collect();
    assert_eq!(
        messages,
        vec![
            "Run artifact experiment values do not match",
            "Run artifact status is not supported",
            "Report artifact status does not match run artifact",
            "Real run artifacts must include execution metadata",
            "Real run artifacts must include workgroup metadata",
            "Report artifactPaths do not match the run artifact paths",
            "Report summary does not match run artifact",
        ]
    );
    assert_eq!(errors[1].code, "report_run_status_unsupported");
    let (mut run, report) = stored_run();
    run.execution = Some(RunExecutionArtifact {
        provider: "fake".to_string(),
        attempt_timeout_secs: 60,
        max_parallel: 1,
        started_at: None,
        completed_at: None,
        cancellation_requested: false,
        executor: "fake".to_string(),
    });
    run.schema_version = 2;
    let errors = validate_report_artifacts("exp", "/e/runs/20260601-181500", "20260601-181500", &run, &report)
        .unwrap_err();
    assert_eq!(errors.len(), 1);
    assert_eq!(errors[0].message, "Run artifacts must use schemaVersion 1");
}

fn ownership(replica: &str) -> AttemptOwnershipArtifact {
    AttemptOwnershipArtifact {
        schema_version: 1,
        run_id: "20260601-181500".to_string(),
        attempt_id: "p1__control__r1".to_string(),
        attempt_generation: 1,
        session_id: None,
        workgroup_path: "/ws/wg-3-exp".to_string(),
        replica_root: replica.to_string(),
        prompt_path: "/run/prompts/p1__control__r1.md".to_string(),
        output_path: "/run/outputs/p1__control__r1.txt".to_string(),
        started_at: "2026-06-01T18:15:00Z".to_string(),
    }
}

#[test]
fn ownership_records_must_agree() {
    assert!(validate_ownership_pair(&ownership("/a"), &ownership("/a")).is_ok());
    let errors = validate_ownership_pair(&ownership("/a"), &ownership("/b")).unwrap_err();
    assert_eq!(errors[0].message, "Attempt ownership records disagree");
    let prompts = vec![prompt("p1", "One", 1)];
    let variants = vec![variant("control")];
    let attempts = build_attempts("20260601-181500", &prompts, &variants, 1);
    let wg = RunWorkgroupArtifact {
        name: "wg-3-exp".to_string(),
        path: "/ws/wg-3-exp".to_string(),
        retained: true,
        cleanup_supported: false,
        run_id: "20260601-181500".to_string(),
        experiment: "exp".to_string(),
    };
    let replica = "/ws/wg-3-exp/__agent_alpha-control";
    assert!(validate_ownership_matches_attempt(&ownership(replica), &attempts[0], &wg, replica).is_ok());
    let errors =
        validate_ownership_matches_attempt(&ownership("/x"), &attempts[0], &wg, replica).unwrap_err();
    assert_eq!(errors[0].variant.as_deref(), Some("control"));
}

#[test]
fn attempt_state_names() {
    assert_eq!(attempt_state_id("p1__control__r1.running.json"), Some("p1__control__r1".to_string()));
    assert_eq!(attempt_state_id("p1__control__r1.done.json"), Some("p1__control__r1".to_string()));
    assert_eq!(attempt_state_id("p1.json"), None);
}

#[test]
fn attempts_run_once_and_retry_only_failures() {
    let prompts = vec![prompt("p1", "One", 1)];
    let variants = vec![variant("control")];
    let mut attempts = build_attempts("20260601-181500", &prompts, &variants, 1);
    let a = &mut attempts[0];
    assert!(attempt_should_run(a, false));
    assert!(!attempt_should_run(a, true));
    begin_attempt(a, false, "t0", "/p.md", "/o.txt", "/replica", "wg-3-exp", "fake-failed");
    assert_eq!(a.status, "running");
    assert_eq!(a.attempt_generation, 1);
    assert_eq!(a.provider.as_deref(), Some("fake-failed"));
    let result = fake_attempt_result("fake-failed", a, "/o.txt");
    finish_attempt(a, result, "t1");
    assert_eq!(a.status, "failed");
    assert_eq!(a.failure_reason.as_deref(), Some("fake_executor_failure"));
    assert_eq!(a.flags, vec!["fake_executor_failure".to_string()]);
    assert_eq!(a.completed_at.as_deref(), Some("t1"));
    assert!(!attempt_should_run(a, false));
    assert!(attempt_should_run(a, true));
    begin_attempt(a, true, "t2", "/p.md", "/o2.txt", "/replica", "wg-3-exp", "fake");
    assert_eq!(a.attempt_generation, 2);
    assert_eq!(a.flags.last().map(|s| s.as_str()), Some("retry_failed"));
    let result = fake_attempt_result("fake", a, "/o2.txt");
    finish_attempt(a, result, "t3");
    assert_eq!(a.status, "completed");
    assert_eq!(a.output_path.as_deref(), Some("/o2.txt"));
    let own = attempt_ownership("20260601-181500", a, "/ws/wg", "/replica", "/p.md", "/o2.txt", "t2");
    assert_eq!(own.attempt_generation, 2);
    assert_eq!(own.attempt_id, "p1__control__r1");
}

#[test]
fn diff_warnings_for_variants() {
    let w = role_diff_warning("a\nb\n", "test", "a\nb\n").unwrap();
    assert_eq!(w.code, "variant_role_identical_to_control");
    assert_eq!(w.variant.as_deref(), Some("test"));
    let w = role_diff_warning("a\nb\n", "test", "a\nc\n").unwrap();
    assert_eq!(w.code, "variant_role_tiny_diff_from_control");
    assert!(role_diff_warning("a\nb\n", "test", "x\ny\n").is_none());
    let ws = fake_run_warnings();
    assert_eq!(ws.len(), 4);
    assert_eq!(ws[2].message, "Phase 3A does not score attempts or select winners.");
}

#[test]
fn attempt_texts() {
    assert_eq!(
        build_attempt_injection("/run/prompts/a.md"),
        "Role experiment attempt.\n\nRead the prompt file at the exact path below. The path is delimited and quoted for Windows shells:\n\n```role-experiment-path\n\"/run/prompts/a.md\"\n```\n\nWhen complete, include a concise final answer in this session.\n"
    );
    let prompts = vec![prompt("p1", "One", 1)];
    let variants = vec![variant("control")];
    let attempts = build_attempts("20260601-181500", &prompts, &variants, 1);
    let text = attempt_prompt_text(&attempts[0], &prompts[0]);
    assert!(text.starts_with("# Role Experiment Attempt\n\nRun: 20260601-181500\nAttempt: p1__control__r1\nVariant: control\nPrompt: p1\nReplicate: 1\n\n## Runner Instructions\n"));
    assert!(text.ends_with("## Prompt\n\ndo p1\n"));
}

#[test]
fn generated_run_ids_take_two_digit_suffixes() {
    assert_eq!(generated_run_id("20260601-181500", 1), "20260601-181500");
    assert_eq!(generated_run_id("20260601-181500", 2), "20260601-181500-02");
    assert_eq!(generated_run_id("20260601-181500", 99), "20260601-181500-99");
    assert!(validate_run_id(&generated_run_id("20260601-181500", 37)).is_ok());
}

#[test]
fn stale_running_attempts_become_inconclusive_once() {
    let prompts = vec![prompt("p1", "One", 1)];
    let variants = vec![variant("control")];
    let mut attempts = build_attempts("20260601-181500", &prompts, &variants, 1);
    let a = &mut attempts[0];
    reconcile_attempt(a, true, true, false);
    assert_eq!(a.status, "planned");
    reconcile_attempt(a, false, true, true);
    assert_eq!(a.status, "planned");
    reconcile_attempt(a, false, false, false);
    assert_eq!(a.status, "planned");
    reconcile_attempt(a, false, true, false);
    assert_eq!(a.status, "inconclusive");
    assert_eq!(a.failure_reason.as_deref(), Some("stale_running_attempt"));
    assert_eq!(a.flags, vec!["stale_running_attempt".to_string()]);
    reconcile_attempt(a, false, true, false);
    assert_eq!(a.flags, vec!["stale_running_attempt".to_string()]);
}

#[test]
fn workgroup_numbers_and_names() {
    assert_eq!(wg_number_of("wg-12-dev"), Some(12));
    assert_eq!(wg_number_of("wg-007x"), Some(7));
    assert_eq!(wg_number_of("wg-"), None);
    assert_eq!(wg_number_of("wg-x"), None);
    assert_eq!(wg_number_of("room-3"), None);
    assert_eq!(wg_number_of("wg-4294967295"), Some(4294967295));
    assert_eq!(wg_number_of("wg-4294967296"), None);
    let names: Vec<String> = ["_agent_a", "wg-3-dev", "wg-10-role-exp-x", "wg-2", "notes"]
        .iter()
        .map(|s| s.to_string())
        .collect();
    assert_eq!(next_workgroup_number(&names), 11);
    assert_eq!(next_workgroup_number(&Vec::new()), 1);
    assert_eq!(run_workgroup_name(11, "exp"), "wg-11-role-exp-exp");
    assert_eq!(run_task_text("exp", "r1"), "# Role Experiment Run\n\nExperiment: exp\nRun: r1\n");
}

#[test]
fn matrix_paths_and_replica_roles() {
    assert_eq!(source_matrix_path("/p/.ac", "alpha"), "/p/.ac/_agent_alpha");
    assert_eq!(variant_matrix_path("/p/.ac/", "alpha", "test"), "/p/.ac/_agent_alpha-test");
    let cs = |p: &str| p.split('/').filter(|s| !s.is_empty()).map(|s| s.to_string()).collect::<Vec<String>>();
    assert!(is_replica_role_file(&cs("/p/.ac/wg-1-dev/__agent_alpha/Role.md")));
    assert!(!is_replica_role_file(&cs("/p/.ac/_agent_alpha/Role.md")));
    assert!(!is_replica_role_file(&cs("/p/.ac/wg-1-dev/__agent_alpha/AGENTS.md")));
    assert!(!is_replica_role_file(&cs("Role.md")));
    assert!(is_override_workgroup("wg-2-dev"));
    assert!(!is_override_workgroup("wg-3-role-exp-exp"));
    assert!(!is_override_workgroup("_agent_alpha"));
}

#[test]
fn report_format_accepts_text_and_json_only() {
    assert!(validate_report_format("text").is_ok());
    assert!(validate_report_format("json").is_ok());
    let es = validate_report_format("yaml").unwrap_err();
    assert_eq!(es.len(), 1);
    assert_eq!(es[0].code, "report_format_invalid");
    assert_eq!(es[0].message, "--format must be text or json");
}

#[test]
fn size_warnings_start_above_fifty() {
    assert!(validate_size_warning(10, 5).is_none());
    let w = validate_size_warning(17, 3).unwrap();
    assert_eq!(w.code, "large_run_size");
    assert_eq!(w.message, "Prompt count multiplied by variant count exceeds 50");
    assert!(validate_size_warning(usize::MAX, 2).is_some());
    assert!(dry_run_size_warning(50).is_none());
    let w = dry_run_size_warning(51).unwrap();
    assert_eq!(w.message, "Prompt count multiplied by variant count and replicates exceeds 50");
}

#[test]
fn variant_diff_warns_only_on_identical_roles() {
    let (diff, stats, w) = variant_diff_outcome("control", "terse", "a\nb\n", "a\nb\n");
    assert!(stats.identical);
    assert_eq!(diff, "--- control\n+++ terse\n");
    let w = w.unwrap();
    assert_eq!(w.code, "variant_role_identical");
    assert_eq!(w.message, "Variant roles are identical");
    assert_eq!(w.variant.as_deref(), Some("terse"));
    let (_, stats, w) = variant_diff_outcome("control", "terse", "a\nb\n", "a\nc\n");
    assert!(!stats.identical);
    assert_eq!(stats.changed_lines, 2);
    assert!(w.is_none());
}

#[test]
fn attempt_output_names_pad_retry_numbers() {
    assert_eq!(attempt_output_name("p1__control__r01", 0), "p1__control__r01.txt");
    assert_eq!(attempt_output_name("p1__control__r01", 3), "p1__control__r01.retry-03.txt");
    assert_eq!(attempt_output_name("p1__control__r01", 42), "p1__control__r01.retry-42.txt");
}

#[test]
fn next_output_name_takes_first_free_slot() {
    assert_eq!(next_attempt_output_name("a", &vec![]).unwrap(), "a.txt");
    assert_eq!(next_attempt_output_name("a", &vec![true, true, false]).unwrap(), "a.retry-02.txt");
    assert_eq!(next_attempt_output_name("a", &vec![true; 5]).unwrap(), "a.retry-05.txt");
    let es = next_attempt_output_name("a", &vec![true; 100]).unwrap_err();
    assert_eq!(es[0].code, "run_artifact_write_failed");
    assert_eq!(es[0].message, "Too many retry output files for attempt");
}

#[test]
fn status_total_adds_all_seven_counts() {
    let s = ReportSummaryArtifact {
        prompt_count: 2,
        variant_count: 2,
        replicates: 2,
        attempt_count: 8,
        planned_attempt_count: 1,
        running_attempt_count: 1,
        completed_attempt_count: 2,
        failed_attempt_count: 1,
        timed_out_attempt_count: 1,
        inconclusive_attempt_count: 1,
        cancelled_attempt_count: 1,
    };
    assert_eq!(report_status_total(&s), 8);
}

#[test]
fn fake_output_lists_result_fields() {
    let r = AttemptExecutionResult {
        attempt_id: "p1__control__r01".to_string(),
        status: "failed".to_string(),
        duration_ms: Some(0),
        transcript_path: None,
        provider_transcript_path: None,
        output_path: None,
        failure_reason: Some("fake_executor_failure".to_string()),
        exit_code: None,
        flags: vec!["fake_executor_failure".to_string(), "x".to_string()],
    };
    assert_eq!(
        fake_output_text(&r, "T0", "T1"),
        "attemptId: p1__control__r01\nstatus: failed\nstartedAt: T0\ncompletedAt: T1\nflags: fake_executor_failure,x\nfailureReason: fake_executor_failure\n"
    );
}

fn run_args() -> RunArgs {
    RunArgs {
        project: "p".to_string(),
        experiment: "e".to_string(),
        prompt_suite: "s.jsonl".to_string(),
        replicates: 1,
        seed: None,
        run_id: None,
        dry_run: true,
        execute: false,
        provider: "fake".to_string(),
        attempt_timeout_secs: 900,
        max_parallel: 1,
        retain_workgroup: None,
        resume_run: false,
        retry_failed: false,
        fake_executor: false,
    }
}

#[test]
fn run_mode_reports_every_refusal_in_order() {
    assert!(validate_run_mode(&run_args(), false).is_ok());
    let mut a = run_args();
    a.dry_run = false;
    a.max_parallel = 2;
    a.attempt_timeout_secs = 10;
    a.retain_workgroup = Some(false);
    a.resume_run = true;
    a.fake_executor = true;
    let es = validate_run_mode(&a, false).unwrap_err();
    let codes: Vec<&str> = es.iter().map(|e| e.code.as_str()).collect();
    assert_eq!(
        codes,
        vec![
            "run_mode_required",
            "fake_executor_not_available",
            "parallel_execution_not_supported",
            "attempt_timeout_invalid",
            "cleanup_not_supported",
            "resume_requires_execute",
            "resume_requires_run_id",
        ]
    );
    let mut b = run_args();
    b.execute = true;
    b.retry_failed = true;
    let es = validate_run_mode(&b, true).unwrap_err();
    assert_eq!(es[0].code, "run_mode_conflict");
    assert_eq!(es[1].code, "retry_failed_requires_resume");
    assert_eq!(es.len(), 2);
}

#[test]
fn attempt_state_entries_must_name_a_run_attempt() {
    let ids = vec!["p1__control__r01".to_string()];
    assert_eq!(
        check_state_entry("s/p1__control__r01.done.json", true, Some("p1__control__r01.done.json"), &ids).unwrap(),
        "p1__control__r01"
    );
    assert_eq!(
        check_state_entry("s/p1__control__r01.running.json", true, Some("p1__control__r01.running.json"), &ids).unwrap(),
        "p1__control__r01"
    );
    let e = check_state_entry("s/d", false, Some("d"), &ids).unwrap_err();
    assert_eq!(e.code, "run_artifact_mismatch");
    assert_eq!(e.message, "Attempt-state entry is not a file: s/d");
    assert_eq!(e.path.as_deref(), Some("s/d"));
    let e = check_state_entry("s/x", true, None, &ids).unwrap_err();
    assert_eq!(e.message, "Attempt-state entry has invalid name: s/x");
    let e = check_state_entry("s/x.json", true, Some("x.json"), &ids).unwrap_err();
    assert_eq!(e.message, "Attempt-state entry has unsupported name: s/x.json");
    let e = check_state_entry("s/p2.done.json", true, Some("p2.done.json"), &ids).unwrap_err();
    assert_eq!(e.message, "Attempt-state entry does not match a run attempt: s/p2.done.json");
}

#[test]
fn ownership_schema_must_be_one() {
    assert!(check_ownership_schema(1, "o.json").is_ok());
    let e = check_ownership_schema(2, "o.json").unwrap_err();
    assert_eq!(e.code, "run_artifact_mismatch");
    assert_eq!(e.message, "Attempt ownership schemaVersion must be 1");
    assert_eq!(e.path.as_deref(), Some("o.json"));
}

#[test]
fn experiments_need_two_variants() {
    let es = check_variant_count(1).unwrap_err();
    assert_eq!(es[0].code, "variant_count_invalid");
    assert_eq!(es[0].message, "--variants must contain at least two entries");
    assert!(check_variant_count(2).is_ok());
}

#[test]
fn new_metadata_paths_are_relative() {
    let v = new_variant_metadata("terse", "alpha", "abc", "2024-01-01T00:00:00Z");
    assert_eq!(v.schema_version, 1);
    assert_eq!(v.agent_name, "alpha-terse");
    assert_eq!(v.matrix_path, "../../../_agent_alpha-terse");
    assert_eq!(v.role_path, "../../../_agent_alpha-terse/Role.md");
    assert_eq!(v.role_sha256, "abc");
    assert_eq!(v.created_at, v.updated_at);
    let e = new_experiment_metadata("exp", "proj", "alpha", "abc", "now", vec!["control".to_string(), "terse".to_string()]);
    assert_eq!(e.source_matrix_path, "../../_agent_alpha");
    assert_eq!(e.source_role_path, "../../_agent_alpha/Role.md");
    assert_eq!(e.variants, vec!["control".to_string(), "terse".to_string()]);
}

#[test]
fn role_documents_must_be_utf8() {
    assert!(check_source_role_utf8(&b"# Role\n".to_vec()).is_ok());
    let es = check_source_role_utf8(&vec![0xff, 0xfe]).unwrap_err();
    assert_eq!(es[0].code, "source_role_not_utf8");
    assert_eq!(es[0].message, "Source Role.md must be valid UTF-8");
    assert!(check_role_file_utf8(&b"ok".to_vec(), "terse").is_ok());
    let es = check_role_file_utf8(&vec![0xc3], "terse").unwrap_err();
    assert_eq!(es[0].code, "role_file_not_utf8");
    assert_eq!(es[0].variant.as_deref(), Some("terse"));
}

#[test]
fn recording_a_role_stores_its_digest() {
    let mut v = new_variant_metadata("terse", "alpha", "old", "t0");
    record_variant_role(&mut v, &b"abc".to_vec(), "t1");
    assert_eq!(v.role_sha256, "ba7816bf8f01cfea414140de5dae2223b00361a396177a9cb410ff61f20015ad");
    assert_eq!(v.updated_at, "t1");
    assert_eq!(v.created_at, "t0");
}

#[test]
fn run_args_are_checked_mode_first_then_runtime_then_replicates() {
    assert!(check_run_args(&run_args(), false).is_ok());
    let mut a = run_args();
    a.dry_run = false;
    a.replicates = 0;
    let es = check_run_args(&a, false).unwrap_err();
    assert_eq!(es[0].code, "run_mode_required");
    let mut b = run_args();
    b.dry_run = false;
    b.execute = true;
    b.replicates = 0;
    let es = check_run_args(&b, false).unwrap_err();
    assert_eq!(es.len(), 1);
    assert_eq!(es[0].code, "execution_requires_running_app");
    let mut c = run_args();
    c.replicates = 101;
    let es = check_run_args(&c, false).unwrap_err();
    assert_eq!(es[0].code, "replicates_invalid");
    assert_eq!(es[0].message, "--replicates must be between 1 and 100");
}

#[test]
fn dry_run_records_variants_and_default_paths() {
    let vs = run_variant_artifacts("/p/.ac", "alpha", &vec![variant("control"), variant("terse")]);
    assert_eq!(vs.len(), 2);
    assert_eq!(vs[0].name, "control");
    assert_eq!(vs[1].role_path, "/p/.ac/_agent_alpha-terse/Role.md");
    let r = dry_run_artifact(
        "20240101-000000",
        "proj",
        "exp",
        "2024-01-01T00:00:00Z",
        RunSuiteArtifact { path: "/s.jsonl".to_string(), sha256: "abc".to_string(), prompt_count: 2 },
        7,
        true,
        1,
        vs,
        4,
    );
    assert_eq!(r.status, "dry_run");
    assert!(r.dry_run);
    assert_eq!(r.created_at, r.updated_at);
    assert_eq!(r.artifacts.attempts, "attempts.jsonl");
    assert_eq!(r.artifacts.attempt_state, "attempt-state");
    assert!(r.execution.is_none() && r.workgroup.is_none() && r.warnings.is_empty());
    assert_eq!(r.variants.len(), 2);
    assert_eq!(r.attempt_count, 4);
}

fn resume_inputs() -> (RunArgs, ParsedPromptSuite, Vec<VariantMetadata>, RunArtifact, Vec<agentscommander::role_experiment::AttemptArtifact>, ReportArtifact) {
    let (mut run, report) = stored_run();
    let mut args = run_args();
    args.replicates = 2;
    args.project = "proj".to_string();
    let suite = ParsedPromptSuite {
        path: "/s".to_string(),
        sha256: "00".to_string(),
        prompts: vec![prompt("p1", "One", 1)],
    };
    let variants = vec![variant("control")];
    run.variants[0].role_path = variants[0].role_path.clone();
    let attempts = build_attempts("20260601-181500", &suite.prompts, &variants, 2);
    (args, suite, variants, run, attempts, report)
}

#[test]
fn resume_refuses_a_dry_run_without_workgroup() {
    let (args, suite, variants, run, attempts, report) = resume_inputs();
    let errors = check_resume_artifacts(
        &args, "exp", "/e/runs/20260601-181500", "20260601-181500", &suite, &variants, &run, &attempts, &report,
    )
    .unwrap_err();
    let messages: Vec<&str> = errors.iter().map(|e| e.message.as_str()).collect();
    assert_eq!(
        messages,
        vec![
            "Run artifact identity does not match resume arguments",
            "Run artifact is missing workgroup metadata",
        ]
    );
}

#[test]
fn resume_refuses_tampered_report_and_attempts() {
    let (mut args, suite, variants, run, mut attempts, mut report) = resume_inputs();
    report.variants[0].name = "renamed".to_string();
    report.prompts[0].title = "Other".to_string();
    attempts[1].replicate = 5;
    args.seed = Some(9);
    let errors = check_resume_artifacts(
        &args, "exp", "/e/runs/20260601-181500", "20260601-181500", &suite, &variants, &run, &attempts, &report,
    )
    .unwrap_err();
    let messages: Vec<&str> = errors.iter().map(|e| e.message.as_str()).collect();
    assert_eq!(
        messages,
        vec![
            "Run artifact identity does not match resume arguments",
            "Run artifact seed does not match resume arguments",
            "Attempt artifact identity does not match resume arguments",
            "Report variant identity does not match resume arguments",
            "Report prompt identity does not match resume arguments",
            "Run artifact is missing workgroup metadata",
        ]
    );
    assert_eq!(errors[2].variant.as_deref(), Some("control"));
    assert_eq!(errors[3].variant.as_deref(), Some("renamed"));
    let (args, suite, variants, mut run, attempts, report) = resume_inputs();
    run.attempt_count = 3;
    let errors = check_resume_artifacts(
        &args, "exp", "/e/runs/20260601-181500", "20260601-181500", &suite, &variants, &run, &attempts, &report,
    )
    .unwrap_err();
    assert!(errors.iter().any(|e| e.message == "Run artifact contract does not match resume arguments"));
}

#[test]
fn status_total_reaches_attempt_count_only_when_every_status_is_known() {
    let prompts = vec![prompt("p1", "One", 1)];
    let variants = vec![variant("control")];
    let mut attempts = build_attempts("20260601-181500", &prompts, &variants, 3);
    let all_known = count_attempt_statuses(1, 1, 3, &attempts);
    assert_eq!(report_status_total(&all_known), 3);
    attempts[1].status = "lost".to_string();
    let one_unknown = count_attempt_statuses(1, 1, 3, &attempts);
    assert_eq!(report_status_total(&one_unknown), 2);
    assert_eq!(one_unknown.attempt_count, 3);
}

fn check(name: &str, slug: Option<&str>, agent: Option<&str>, matrix: MatrixState) -> VariantCheck {
    VariantCheck {
        name: name.to_string(),
        slug_error: slug.map(|s| s.to_string()),
        agent_name_error: agent.map(|s| s.to_string()),
        matrix,
    }
}

#[test]
fn init_preflight_reports_every_refusal_in_order() {
    let checks = vec![
        check("", None, None, MatrixState::Absent),
        check("Bad", Some("Variant 'Bad' must already be a lowercase slug"), None, MatrixState::Absent),
        check("control", None, None, MatrixState::Absent),
        check("control", None, None, MatrixState::Absent),
        check("long", None, Some("Agent name too long"), MatrixState::Absent),
        check("terse", None, None, MatrixState::Present),
        check("linked", None, None, MatrixState::Link),
    ];
    let errors = init_preflight("exp", "/p/.ac", "alpha", &checks, true);
    let got: Vec<(&str, &str, Option<&str>)> =
        errors.iter().map(|e| (e.code.as_str(), e.message.as_str(), e.variant.as_deref())).collect();
    assert_eq!(
        got,
        vec![
            ("variant_name_empty", "Variant name cannot be empty", None),
            ("variant_name_invalid", "Variant 'Bad' must already be a lowercase slug", None),
            ("variant_name_duplicate", "Variant 'control' is duplicated", Some("control")),
            ("variant_name_invalid", "Agent name too long", Some("long")),
            ("variant_matrix_exists", "Variant matrix already exists: /p/.ac/_agent_alpha-terse", Some("terse")),
            (
                "variant_role_link_or_reparse",
                "Variant matrix path is a link or reparse point: /p/.ac/_agent_alpha-linked",
                Some("linked"),
            ),
            ("experiment_exists", "Experiment 'exp' already exists", None),
        ]
    );
    let ok = vec![check("control", None, None, MatrixState::Absent), check("terse", None, None, MatrixState::Absent)];
    assert!(init_preflight("exp", "/p/.ac", "alpha", &ok, false).is_empty());
}

#[test]
fn init_metadata_records_the_role_digest_everywhere() {
    let (e, vs) = init_metadata(
        "exp",
        "proj",
        "alpha",
        vec!["control".to_string(), "terse".to_string()],
        &b"abc".to_vec(),
        "t0",
    )
    .unwrap();
    let sha = "ba7816bf8f01cfea414140de5dae2223b00361a396177a9cb410ff61f20015ad";
    assert_eq!(e.source_role_sha256, sha);
    assert_eq!(e.variants, vec!["control".to_string(), "terse".to_string()]);
    assert_eq!(vs.len(), 2);
    assert_eq!(vs[1].name, "terse");
    assert_eq!(vs[1].agent_name, "alpha-terse");
    assert!(vs.iter().all(|v| v.role_sha256 == sha));
    let es = init_metadata("exp", "proj", "alpha", vec![], &vec![0xff], "t0").unwrap_err();
    assert_eq!(es.len(), 1);
    assert_eq!(es[0].code, "source_role_not_utf8");
}

#[test]
fn validate_checks_variant_names_in_order() {
    let mut seen: Vec<String> = Vec::new();
    let (es, stop) = check_variant_name("", None, &mut seen);
    assert!(stop);
    assert_eq!(es[0].code, "variant_name_empty");
    let (es, stop) = check_variant_name("control", None, &mut seen);
    assert!(!stop && es.is_empty());
    let (es, _) = check_variant_name("control", Some("not a slug"), &mut seen);
    assert_eq!(es.len(), 2);
    assert_eq!(es[0].code, "variant_name_invalid");
    assert_eq!(es[0].message, "not a slug");
    assert_eq!(es[1].message, "Duplicate variant 'control'");
    assert_eq!(es[1].variant.as_deref(), Some("control"));
    assert_eq!(seen, vec!["control".to_string()]);
    let es = source_presence_errors("/p/_agent_a", false, "/p/_agent_a/Role.md", false);
    assert_eq!(es[0].message, "Source agent matrix is missing: /p/_agent_a");
    assert_eq!(es[1].message, "Source Role.md is missing: /p/_agent_a/Role.md");
    assert!(source_presence_errors("a", true, "b", true).is_empty());
    let e = active_variant_session_error("terse", "wg-1/dev", "/w");
    assert_eq!(e.message, "Active session 'wg-1/dev' at /w");
    assert_eq!(e.code, "active_variant_session");
    let e = replica_override_error("terse", "alpha-terse");
    assert_eq!(e.message, "Replica Role.md override exists for alpha-terse");
}

fn workgroup() -> RunWorkgroupArtifact {
    RunWorkgroupArtifact {
        name: "wg-3-role-exp-exp".to_string(),
        path: "/ws/wg-3-role-exp-exp".to_string(),
        retained: true,
        cleanup_supported: false,
        run_id: "r1".to_string(),
        experiment: "exp".to_string(),
    }
}

#[test]
fn executed_run_record_starts_running() {
    let mut args = run_args();
    args.execute = true;
    args.dry_run = false;
    args.provider = "fake-failed".to_string();
    let suite = ParsedPromptSuite { path: "/s".to_string(), sha256: "00".to_string(), prompts: vec![prompt("p1", "One", 1)] };
    let variants = vec![variant("control")];
    let r = new_run_record(&args, "r1", "exp", "T0", &suite, 77, &variants, 1, workgroup());
    assert_eq!(r.status, "running");
    assert_eq!(r.seed, 77);
    assert!(!r.seed_provided);
    assert_eq!(r.variants[0].role_path, variants[0].role_path);
    let x = r.execution.as_ref().unwrap();
    assert_eq!(x.executor, "fake");
    assert_eq!(x.started_at.as_deref(), Some("T0"));
    assert_eq!(r.warnings.len(), 4);
    args.seed = Some(5);
    let mut r = new_run_record(&args, "r1", "exp", "T0", &suite, 77, &variants, 1, workgroup());
    assert_eq!(r.seed, 5);
    assert!(r.seed_provided);
    r.status = "failed".to_string();
    r.execution.as_mut().unwrap().completed_at = Some("T1".to_string());
    resume_run_record(&mut r, &args, "T2", workgroup());
    assert_eq!(r.status, "running");
    assert_eq!(r.updated_at, "T2");
    assert_eq!(r.created_at, "T0");
    assert!(r.execution.as_ref().unwrap().completed_at.is_none());
    assert_eq!(recorded_variants(&variants).len(), 1);
}
