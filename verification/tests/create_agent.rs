use agentscommander::coding_agent::AgentConfig;
use agentscommander::create_agent::{
    create_agent_request, find_launch_agent, launch_command, launch_not_found_warning, launch_outcome,
    CreateAgentArgs, LaunchOutcome, SessionRequestResult, SessionRequestResultStatus,
};
use agentscommander::create_agent_matrix::{
    execute, matrix_create_exit_code, matrix_create_result, matrix_launch_agent, matrix_launch_warning,
    CreateAgentMatrixArgs,
};

fn agent(id: &str, label: &str, command: &str) -> AgentConfig {
    AgentConfig {
        id: id.to_string(),
        label: label.to_string(),
        command: command.to_string(),
        color: "#000000".to_string(),
        envs: Vec::new(),
        isolated_home: false,
        instructions_filename: None,
        config_seed: None,
    }
}

#[test]
fn find_launch_agent_matches_id_label_substring_and_command_prefix() {
    let agents = vec![
        agent("codex", "OpenAI Codex", "codex"),
        agent("desk", "Desk Desktop", "desk --dangerously-skip-permissions"),
        agent("pwsh", "PowerShell", "powershell.exe -NoLogo"),
    ];
    assert_eq!(find_launch_agent(&agents, "CODEX").map(|a| a.id.as_str()), Some("codex"));
    assert_eq!(find_launch_agent(&agents, "Desk Desktop").map(|a| a.id.as_str()), Some("desk"));
    assert_eq!(find_launch_agent(&agents, "desktop").map(|a| a.id.as_str()), Some("desk"));
    assert_eq!(find_launch_agent(&agents, "powershell").map(|a| a.id.as_str()), Some("pwsh"));
    assert_eq!(find_launch_agent(&agents, "  CODEX  ").map(|a| a.id.as_str()), Some("codex"));
}

#[test]
fn find_launch_agent_rejects_empty_and_whitespace_requests() {
    let agents = vec![agent("codex", "OpenAI Codex", "codex"), agent("desk", "Desk Desktop", "desk")];
    assert!(find_launch_agent(&agents, "").is_none());
    assert!(find_launch_agent(&agents, "   \t  ").is_none());
}

#[test]
fn find_launch_agent_takes_first_answer_and_none_otherwise() {
    let agents = vec![agent("a", "Same", "x"), agent("b", "Same", "y")];
    assert_eq!(find_launch_agent(&agents, "same").map(|a| a.id.as_str()), Some("a"));
    assert!(find_launch_agent(&agents, "zzz").is_none());
    assert_eq!(find_launch_agent(&agents, "Y").map(|a| a.id.as_str()), Some("b"));
}

#[test]
fn description_is_required_and_trimmed() {
    let args = |d: &str| CreateAgentArgs {
        project: "p".into(),
        name: "n".into(),
        description: d.into(),
        role_template: None,
        launch: Some("codex".into()),
        root: None,
        token: None,
    };
    let f = create_agent_request(args("  ")).err().unwrap();
    assert_eq!((f.exit_code, f.message.as_str()), (1, "Error: --description must not be empty"));
    let req = create_agent_request(args(" builds ")).ok().unwrap();
    assert_eq!(req.description, "builds");
    assert_eq!(req.launch.as_deref(), Some("codex"));
    let m = execute(CreateAgentMatrixArgs {
        project: "p".into(),
        name: "n".into(),
        description: " d ".into(),
        role_template: Some("agency:x".into()),
        launch: None,
        root: None,
        token: None,
    });
    assert_eq!(m.description, " d ");
    assert_eq!(m.role_template.as_deref(), Some("agency:x"));
}

#[test]
fn launch_verdicts() {
    let created = SessionRequestResult {
        id: "r".into(),
        status: SessionRequestResultStatus::Created,
        session_id: Some("s1".into()),
        error: None,
    };
    match launch_outcome(Some(created), false) {
        Some(LaunchOutcome::Launched { session_id }) => assert_eq!(session_id, "s1"),
        other => panic!("unexpected {:?}", other),
    }
    let rejected = SessionRequestResult {
        id: "r".into(),
        status: SessionRequestResultStatus::Rejected,
        session_id: None,
        error: None,
    };
    match launch_outcome(Some(rejected), true) {
        Some(LaunchOutcome::Rejected { error }) => assert_eq!(error, ""),
        other => panic!("unexpected {:?}", other),
    }
    assert!(launch_outcome(None, false).is_none());
    assert!(matches!(launch_outcome(None, true), Some(LaunchOutcome::Pending)));
    assert_eq!(
        launch_not_found_warning("x", &vec!["a".to_string(), "b".to_string()]),
        "Warning: agent 'x' not found in settings. Available: a, b. Matrix created but not launched."
    );
}

#[test]
fn matrix_launch_reports_launched_only_when_request_written() {
    let agents = vec![agent("codex", "OpenAI Codex", "codex")];
    assert!(matrix_launch_agent(&agents, None).is_none());
    assert!(matrix_launch_agent(&agents, Some("ghost")).is_none());
    let found = matrix_launch_agent(&agents, Some("codex"));
    assert_eq!(found.map(|a| a.id.as_str()), Some("codex"));
    let r = matrix_create_result("/p/_agent_x".to_string(), "x".to_string(), "/p/_agent_x/Role.md".to_string(), found, true);
    assert!(r.launched);
    assert_eq!(r.launch_agent.as_deref(), Some("codex"));
    let r = matrix_create_result("a".to_string(), "x".to_string(), "r".to_string(), found, false);
    assert!(!r.launched);
    assert!(r.launch_agent.is_none());
    let r = matrix_create_result("a".to_string(), "x".to_string(), "r".to_string(), None, true);
    assert!(!r.launched && r.launch_agent.is_none());
    assert_eq!(matrix_create_exit_code(true), 0);
    assert_eq!(matrix_create_exit_code(false), 1);
}

#[test]
fn matrix_launch_failures_only_warn() {
    let agents = vec![agent("codex", "OpenAI Codex", "codex")];
    let ids = vec!["codex".to_string()];
    assert!(matrix_launch_warning(None, None, &ids, None).is_none());
    assert_eq!(
        matrix_launch_warning(Some("ghost"), None, &ids, None).unwrap(),
        "Warning: agent 'ghost' not found in settings. Available: codex. Matrix created but not launched."
    );
    assert_eq!(
        matrix_launch_warning(Some("codex"), Some(&agents[0]), &ids, Some("disk full")).unwrap(),
        "Warning: agent matrix created but failed to request launch: disk full"
    );
    assert!(matrix_launch_warning(Some("codex"), Some(&agents[0]), &ids, None).is_none());
}

#[test]
fn build_session_request_rejects_blank_and_whitespace_commands() {
    for command in ["", "   \t  "] {
        let launch_agent = agent("codex", "Codex", command);
        let err = launch_command(&launch_agent).expect_err("blank command");
        assert!(err.contains("empty command"));
        assert!(err.contains("codex"));
    }
}

#[test]
fn launch_command_trims_ascii_whitespace() {
    assert_eq!(launch_command(&agent("codex", "Codex", "  codex --yolo\r\n")).unwrap(), "codex --yolo");
}
