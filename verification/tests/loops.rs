use agentscommander::loop_cmd::{
    check_prompt_file_size, loop_outcome, prompt_file_text, resolve_busy_policy, resolve_prompt,
    BusyCoordinatorCli, BusyCoordinatorPolicy, LoopSessionStart, PromptSource, SessionStartCli,
    MAX_LOOP_PROMPT_FILE_BYTES,
};
use agentscommander::new_project::new_project_report;

#[test]
fn session_start_values_convert() {
    assert_eq!(LoopSessionStart::from(SessionStartCli::Accumulate), LoopSessionStart::Accumulate);
    assert_eq!(LoopSessionStart::from(SessionStartCli::Fresh), LoopSessionStart::Fresh);
    assert_eq!(
        BusyCoordinatorPolicy::from(BusyCoordinatorCli::Skip),
        BusyCoordinatorPolicy::Skip
    );
}

#[test]
fn busy_policy_defaults_and_conflicts() {
    assert_eq!(resolve_busy_policy(None, false), Ok(BusyCoordinatorPolicy::WaitUntilIdle));
    assert_eq!(
        resolve_busy_policy(Some(BusyCoordinatorCli::Skip), false),
        Ok(BusyCoordinatorPolicy::Skip)
    );
    assert_eq!(resolve_busy_policy(None, true), Ok(BusyCoordinatorPolicy::ForceInject));
    assert_eq!(
        resolve_busy_policy(Some(BusyCoordinatorCli::ForceInject), true),
        Ok(BusyCoordinatorPolicy::ForceInject)
    );
    assert_eq!(
        resolve_busy_policy(Some(BusyCoordinatorCli::Skip), true),
        Err("--force-inject-when-busy conflicts with --busy-coordinator values other than force-inject".to_string())
    );
}

#[test]
fn prompt_flags() {
    assert_eq!(
        resolve_prompt(Some("a"), Some("f")).err().unwrap(),
        "Use either --prompt or --prompt-file, not both"
    );
    assert_eq!(
        resolve_prompt(None, None).err().unwrap(),
        "Either --prompt or --prompt-file is required"
    );
    assert_eq!(resolve_prompt(Some("  "), None).err().unwrap(), "--prompt cannot be empty");
    assert!(matches!(resolve_prompt(Some("Summarize status"), None), Ok(PromptSource::Inline(p)) if p == "Summarize status"));
    assert!(matches!(resolve_prompt(None, Some("p.md")), Ok(PromptSource::File(f)) if f == "p.md"));
}

#[test]
fn prompt_files() {
    assert!(check_prompt_file_size("p.md", MAX_LOOP_PROMPT_FILE_BYTES).is_ok());
    assert_eq!(
        check_prompt_file_size("p.md", MAX_LOOP_PROMPT_FILE_BYTES + 1).unwrap_err(),
        "Prompt file 'p.md' is larger than 131072 bytes"
    );
    assert_eq!(prompt_file_text("p.md", b" hi \n".to_vec()).unwrap(), " hi \n");
    assert_eq!(prompt_file_text("p.md", b" \n".to_vec()).unwrap_err(), "Prompt file 'p.md' is empty");
    assert_eq!(
        prompt_file_text("p.md", vec![0xc3]).unwrap_err(),
        "Prompt file 'p.md' is not valid UTF-8"
    );
}

#[test]
fn loop_exit_codes() {
    assert_eq!(loop_outcome(Ok(())), (0, None));
    assert_eq!(
        loop_outcome(Err("Loop 'x' not found".to_string())),
        (1, Some("Error: Loop 'x' not found".to_string()))
    );
}

#[test]
fn new_project_reports_both_steps() {
    let r = new_project_report("/p", true, true);
    assert!(r.save);
    assert_eq!(r.lines, vec!["Created AC project at /p".to_string(), "Registered project: /p".to_string()]);
    let r = new_project_report("/p", false, false);
    assert!(!r.save);
    assert_eq!(
        r.lines,
        vec!["AC project already exists at /p".to_string(), "Project already registered: /p".to_string()]
    );
    assert!(new_project_report("/p", false, true).save);
}
