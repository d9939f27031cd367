use agentscommander::coding_agent::{
    apply_seed_flags, blank_agent, cancelled_message, cmd_add, cmd_remove, cmd_update,
    definition_to_agent_seed, execute, parse_env_flags, validate_agent_color, AddArgs,
    CodingAgentArgs, CodingAgentCmd, CodingAgentDefinition, CodingAgentEnvSource, CodingAgentOp,
    CodingAgentPlan, ConfigSeedConfig, RemoveArgs, UpdateArgs,
};

fn add_args() -> AddArgs {
    AddArgs {
        from_catalog: None,
        id: None,
        label: None,
        command: None,
        color: None,
        env: Vec::new(),
        isolated_home: None,
        instructions_filename: None,
        config_seed_dest: None,
        config_seed_enabled: None,
        confirm_timeout: 0,
    }
}

fn update_args(id: &str) -> UpdateArgs {
    UpdateArgs {
        id: id.to_string(),
        label: None,
        command: None,
        color: None,
        env: Vec::new(),
        clear_envs: false,
        isolated_home: None,
        instructions_filename: None,
        clear_instructions_filename: false,
        config_seed_dest: None,
        config_seed_enabled: None,
        clear_config_seed: false,
        confirm_timeout: 0,
    }
}

#[test]
fn add_custom_requires_label_and_command() {
    let r = execute(CodingAgentArgs { cmd: CodingAgentCmd::Add(add_args()) }, &Vec::new());
    assert_eq!(r.err().unwrap(), "add requires --label and --command (or --from-catalog <key>)");
}

#[test]
fn add_rejects_bad_color_flag() {
    let mut a = add_args();
    a.label = Some("L".into());
    a.command = Some("agent-cli".into());
    a.color = Some("#fff".into());
    assert!(cmd_add(a, &Vec::new()).is_err());
}

#[test]
fn update_clear_envs_conflicts_with_env() {
    let mut a = update_args("x");
    a.clear_envs = true;
    a.env = vec!["FOO=bar".into()];
    assert!(cmd_update(a).is_err());
}

#[test]
fn update_clear_instructions_conflicts() {
    let mut a = update_args("x");
    a.clear_instructions_filename = true;
    a.instructions_filename = Some("AGENTS.md".into());
    assert!(cmd_update(a).is_err());
}

#[test]
fn update_clear_seed_conflicts() {
    let mut a = update_args("x");
    a.clear_config_seed = true;
    a.config_seed_dest = Some(".agent-config".into());
    assert!(cmd_update(a).is_err());
}

#[test]
fn env_parse_first_equals_and_missing() {
    let envs = parse_env_flags(&["FOO=a=b".to_string()]).unwrap();
    assert_eq!(envs[0].key, "FOO");
    assert_eq!(envs[0].value, "a=b");
    assert!(parse_env_flags(&["NOEQUALS".to_string()]).is_err());
}

// ── further cases ────────────────────────────────────────────────────────

#[test]
fn env_rows_are_user_enabled_and_keys_checked() {
    let envs = parse_env_flags(&["A=1".to_string(), "_B2=".to_string()]).unwrap();
    assert_eq!(envs.len(), 2);
    assert_eq!(envs[1].key, "_B2");
    assert_eq!(envs[1].value, "");
    assert!(envs.iter().all(|e| e.enabled && e.source == CodingAgentEnvSource::User));
    assert_eq!(
        parse_env_flags(&["NOEQ".to_string()]).err().unwrap(),
        "--env 'NOEQ' must be KEY=VALUE"
    );
    assert!(parse_env_flags(&["1X=2".to_string()]).is_err());
    assert!(parse_env_flags(&["=v".to_string()]).is_err());
    assert!(parse_env_flags(&["A-B=v".to_string()]).is_err());
}

#[test]
fn colors() {
    assert!(validate_agent_color("#6366f1").is_ok());
    assert!(validate_agent_color("#ABCDEF").is_ok());
    assert_eq!(validate_agent_color("#fff").err().unwrap(), "--color must be #RRGGBB");
    assert!(validate_agent_color("6366f1#").is_err());
    assert!(validate_agent_color("#6366g1").is_err());
}

#[test]
fn add_builds_custom_agent_and_keeps_given_id() {
    let mut a = add_args();
    a.label = Some("  My Agent  ".into());
    a.command = Some("run-agent".into());
    a.id = Some("custom-id".into());
    a.config_seed_dest = Some(".cfg".into());
    let plan = cmd_add(a, &Vec::new()).ok().unwrap();
    assert_eq!(plan.agent.label, "My Agent");
    assert_eq!(plan.agent.command, "run-agent");
    assert_eq!(plan.agent.color, "#6366f1");
    assert_eq!(plan.id.as_deref(), Some("custom-id"));
    let seed = plan.agent.config_seed.unwrap();
    assert!(seed.enabled);
    assert_eq!(seed.dest, ".cfg");
    let mut a = add_args();
    a.label = Some("   ".into());
    assert_eq!(cmd_add(a, &Vec::new()).err().unwrap(), "--label must not be empty");
}

#[test]
fn add_from_catalog_seeds_and_overrides() {
    let catalog = vec![CodingAgentDefinition {
        key: "k1".to_string(),
        label: "Cat Label".to_string(),
        command: "cat-cmd".to_string(),
        color: "#000000".to_string(),
        envs: Vec::new(),
        isolated_home: true,
        instructions_filename: Some("AGENTS.md".to_string()),
        config_seed: Some(ConfigSeedConfig { enabled: false, dest: ".x".to_string() }),
    }];
    let mut a = add_args();
    a.from_catalog = Some("k1".into());
    a.command = Some("override".into());
    a.config_seed_enabled = Some(true);
    let plan = cmd_add(a, &catalog).ok().unwrap();
    assert_eq!(plan.agent.label, "Cat Label");
    assert_eq!(plan.agent.command, "override");
    assert!(plan.agent.isolated_home);
    let seed = plan.agent.config_seed.unwrap();
    assert!(seed.enabled);
    assert_eq!(seed.dest, ".x");
    assert!(plan.id.is_none());
    let mut a = add_args();
    a.from_catalog = Some("nope".into());
    assert_eq!(cmd_add(a, &catalog).err().unwrap(), "catalog key 'nope' not found. Available: k1");
    let seeded = definition_to_agent_seed(&catalog[0]);
    assert_eq!(seeded.id, "");
    assert_eq!(seeded.instructions_filename.as_deref(), Some("AGENTS.md"));
}

#[test]
fn seed_flags() {
    let mut agent = blank_agent();
    apply_seed_flags(&mut agent, None, None);
    assert!(agent.config_seed.is_none());
    apply_seed_flags(&mut agent, None, Some(false));
    let seed = agent.config_seed.as_ref().unwrap();
    assert!(!seed.enabled);
    assert_eq!(seed.dest, "");
    apply_seed_flags(&mut agent, Some("d".into()), None);
    let seed = agent.config_seed.as_ref().unwrap();
    assert!(!seed.enabled);
    assert_eq!(seed.dest, "d");
}

#[test]
fn update_patch_carries_flags() {
    let mut a = update_args("x");
    a.label = Some(" L ".into());
    a.env = vec!["K=v".into()];
    a.clear_instructions_filename = true;
    match cmd_update(a).ok().unwrap() {
        CodingAgentOp::Update { id, patch } => {
            assert_eq!(id, "x");
            assert_eq!(patch.label.as_deref(), Some("L"));
            assert_eq!(patch.envs.unwrap()[0].key, "K");
            assert!(patch.clear_instructions_filename);
        }
        _ => panic!("expected an update"),
    }
    let mut a = update_args("x");
    a.clear_envs = true;
    match cmd_update(a).ok().unwrap() {
        CodingAgentOp::Update { patch, .. } => assert!(patch.envs.unwrap().is_empty()),
        _ => panic!("expected an update"),
    }
    match cmd_remove(RemoveArgs { id: "gone".into(), confirm_timeout: 3 }) {
        CodingAgentOp::Remove { id } => assert_eq!(id, "gone"),
        _ => panic!("expected a removal"),
    }
}

#[test]
fn read_verbs_pass_through() {
    assert!(matches!(
        execute(CodingAgentArgs { cmd: CodingAgentCmd::List }, &Vec::new()),
        Ok(CodingAgentPlan::List)
    ));
    assert!(matches!(
        execute(CodingAgentArgs { cmd: CodingAgentCmd::Catalog }, &Vec::new()),
        Ok(CodingAgentPlan::Catalog)
    ));
    assert_eq!(cancelled_message(30), "GUI did not process the request within 30s; request cancelled (safe to retry)");
}
