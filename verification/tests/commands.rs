use agentscommander::agency_templates::yaml_scalar;
use agentscommander::agency_templates::{is_previous_cache_name, lock_is_stale, lock_owner_pid};
use agentscommander::agency_templates::{
    commit_from_ls_remote, parse_github_repo, sanitize_agency_role_body, should_skip_upstream_division,
    status_cache, status_cache_at, update_cache, update_cache_at, AgencyTemplatesManifest,
    AgencyTemplatesStatus, AgencyTemplatesUpdateArgs, CacheAction, CacheEvent, UpdateAction,
    UpdateEvent,
};
use agentscommander::api_client::{
    execute as api_execute, parse_scopes, ApiClientArgs, ApiClientCommand, ApiClientPlan, ListArgs,
    MintArgs, RevokeArgs,
};
use agentscommander::injected_messages::{
    execute as reseed_execute, reset_report, InjectedMessagesArgs, InjectedMessagesCmd, ReseedArgs,
    ReseedTarget,
};

const SESSION: &str = "11111111-1111-1111-1111-111111111111";

// ── agency-templates ─────────────────────────────────────────────────────

#[test]
fn default_ui_update_uses_default_repo_and_ref() {
    let a = AgencyTemplatesUpdateArgs::default_ui_update();
    assert_eq!(a.repo, "https://github.com/msitarzewski/agency-agents");
    assert_eq!(a.reference, "main");
    assert!(a.json);
}

#[test]
fn github_repo_addresses() {
    assert!(parse_github_repo("https://github.com/o/r").is_ok());
    assert!(parse_github_repo("https://github.com/o/r//").is_ok());
    assert_eq!(
        parse_github_repo("http://github.com/o/r").err().unwrap(),
        "Only https://github.com/<owner>/<repo> Agency repositories are supported"
    );
    let bad = "Agency repository must be https://github.com/<owner>/<repo>";
    assert_eq!(parse_github_repo("https://github.com/o").err().unwrap(), bad);
    assert_eq!(parse_github_repo("https://github.com/o/r/x").err().unwrap(), bad);
    assert_eq!(parse_github_repo("https://github.com/ /r").err().unwrap(), bad);
    assert_eq!(parse_github_repo("https://github.com/o//r").err().unwrap(), bad);
}

#[test]
fn upstream_divisions_and_bodies() {
    assert!(should_skip_upstream_division(".git"));
    assert!(should_skip_upstream_division("node_modules"));
    assert!(!should_skip_upstream_division("engineering"));
    assert_eq!(sanitize_agency_role_body("a\u{0}b\tc\u{7}\nd\u{85}e\r"), "ab\tc\nde\r");
}

#[test]
fn ls_remote_commit() {
    let sha = "0123456789abcdef0123456789ABCDEF01234567";
    let out = format!("short\trefs/x\n{}\trefs/heads/main\n", sha);
    assert_eq!(commit_from_ls_remote(&out), Ok(sha.to_string()));
    assert_eq!(
        commit_from_ls_remote("\n  \nnothing here\n"),
        Err("git ls-remote did not return a 40-character commit sha".to_string())
    );
}

#[test]
fn status_protocol() {
    assert!(matches!(status_cache_at("/c/live", CacheEvent::Locked(Ok(()))), CacheAction::Recover));
    match status_cache_at(
        "/c/live",
        CacheEvent::Locked(Err("lock exists; another agency-templates update is already running".into())),
    ) {
        CacheAction::Finish(Ok(s)) => {
            assert!(!s.available);
            assert_eq!(s.reason.as_deref(), Some("locked"));
            assert_eq!(s.path, "/c/live");
            assert!(s.repo.is_none() && s.reference.is_none() && s.commit.is_none());
            assert!(s.template_count.is_none());
        }
        _ => panic!("expected a locked status"),
    }
    assert!(matches!(
        status_cache_at("/c/live", CacheEvent::Locked(Err("disk full".into()))),
        CacheAction::Finish(Err(_))
    ));
    match status_cache_at("/c/live", CacheEvent::Recovered(Err("cacheInvalid: two".into()))) {
        CacheAction::Finish(Ok(s)) => {
            assert_eq!(s.reason.as_deref(), Some("cacheInvalid"));
            assert!(!s.available && s.repo.is_none() && s.template_count.is_none());
        }
        _ => panic!("expected an invalid status"),
    }
    assert!(matches!(
        status_cache_at("/c/live", CacheEvent::Recovered(Ok("recovered".into()))),
        CacheAction::ReadStatus
    ));
    let read = AgencyTemplatesStatus {
        available: true,
        path: "/c/live".into(),
        repo: None,
        reference: None,
        commit: None,
        template_count: Some(3),
        reason: None,
    };
    match status_cache_at("/c/live", CacheEvent::StatusRead(read)) {
        CacheAction::Finish(Ok(s)) => assert_eq!(s.template_count, Some(3)),
        _ => panic!("expected the read status"),
    }
    match status_cache(None, CacheEvent::Locked(Ok(()))) {
        CacheAction::Finish(Err(e)) => assert_eq!(e, "Could not resolve AgentsCommander config dir"),
        _ => panic!("expected an error"),
    }
}

fn manifest(commit: &str) -> AgencyTemplatesManifest {
    AgencyTemplatesManifest {
        repo: "https://github.com/o/r".into(),
        reference: "main".into(),
        commit: commit.into(),
        template_count: 7,
    }
}

#[test]
fn update_protocol_skips_fetch_when_current() {
    let args = AgencyTemplatesUpdateArgs {
        repo: "https://github.com/o/r".into(),
        reference: "main".into(),
        json: true,
    };
    assert!(matches!(update_cache_at("/l", &args, UpdateEvent::Locked(Ok(()))), UpdateAction::Recover));
    assert!(matches!(
        update_cache_at("/l", &args, UpdateEvent::Recovered(Ok("available".into()))),
        UpdateAction::CleanResidue
    ));
    assert!(matches!(update_cache_at("/l", &args, UpdateEvent::ResidueCleaned), UpdateAction::ResolveCommit));
    match update_cache_at("/l", &args, UpdateEvent::CommitResolved(Ok("c1".into()))) {
        UpdateAction::ReadCurrentManifest(c) => assert_eq!(c, "c1"),
        _ => panic!("expected a manifest read"),
    }
    match update_cache_at(
        "/l",
        &args,
        UpdateEvent::CurrentManifest { commit: "c1".into(), current: Ok(manifest("c1")) },
    ) {
        UpdateAction::Finish(Ok(r)) => {
            assert!(!r.updated);
            assert_eq!(r.template_count, 7);
            assert_eq!(r.path, "/l");
        }
        _ => panic!("expected an up-to-date report"),
    }
    match update_cache_at(
        "/l",
        &args,
        UpdateEvent::CurrentManifest { commit: "c2".into(), current: Ok(manifest("c1")) },
    ) {
        UpdateAction::FetchAndStage(c) => assert_eq!(c, "c2"),
        _ => panic!("expected a fetch"),
    }
    assert!(matches!(
        update_cache_at("/l", &args, UpdateEvent::Staged(Ok(manifest("c2")))),
        UpdateAction::Publish
    ));
    match update_cache_at(
        "/l",
        &args,
        UpdateEvent::Published { manifest: manifest("c2"), result: Ok(()) },
    ) {
        UpdateAction::Finish(Ok(r)) => {
            assert!(r.updated);
            assert_eq!(r.commit, "c2");
        }
        _ => panic!("expected an updated report"),
    }
    let bad = AgencyTemplatesUpdateArgs { repo: "https://example.com/o/r".into(), reference: "main".into(), json: false };
    assert!(matches!(update_cache_at("/l", &bad, UpdateEvent::ResidueCleaned), UpdateAction::Finish(Err(_))));
    assert!(matches!(update_cache(None, &args, UpdateEvent::ResidueCleaned), UpdateAction::Finish(Err(_))));
}

// ── api-client ───────────────────────────────────────────────────────────

#[test]
fn scopes_are_split_trimmed_and_non_empty() {
    assert_eq!(parse_scopes(" send, list-peers-lean,,pty-input ,"), vec!["send", "list-peers-lean", "pty-input"]);
    assert!(parse_scopes("").is_empty());
}

#[test]
fn api_client_needs_host_authority() {
    let mint = |token: &str| ApiClientArgs {
        command: ApiClientCommand::Mint(MintArgs {
            token: Some(token.to_string()),
            root: "/r".into(),
            scopes: "send".into(),
            label: None,
            expires: None,
        }),
    };
    let root = Some("host-root".to_string());
    let f = api_execute(mint(SESSION), &root, &None, false).err().unwrap();
    assert_eq!(f.exit_code, 1);
    assert!(f.message.contains("requires the master/root token"));
    let f = api_execute(mint("host-root"), &root, &None, true).err().unwrap();
    assert!(f.message.contains("Root Agent"));
    match api_execute(mint("host-root"), &root, &None, false).ok().unwrap() {
        ApiClientPlan::Mint { scopes, label, .. } => {
            assert_eq!(scopes, vec!["send"]);
            assert_eq!(label, "");
        }
        _ => panic!("expected a mint"),
    }
    let revoke = ApiClientArgs {
        command: ApiClientCommand::Revoke(RevokeArgs { token: Some("m".into()), client_id: "c".into() }),
    };
    match api_execute(revoke, &None, &Some("m\n".to_string()), false).ok().unwrap() {
        ApiClientPlan::Revoke { client_id } => assert_eq!(client_id, "c"),
        _ => panic!("expected a revoke"),
    }
    let list = ApiClientArgs { command: ApiClientCommand::List(ListArgs { token: None }) };
    assert!(api_execute(list, &None, &None, false).err().unwrap().message.contains("--token is required"));
}

// ── injected-messages ────────────────────────────────────────────────────

#[test]
fn reseed_targets() {
    let known = vec!["context-alert".to_string(), "idle".to_string()];
    let args = |id: Option<&str>, all: bool| InjectedMessagesArgs {
        cmd: InjectedMessagesCmd::Reseed(ReseedArgs { id: id.map(|s| s.to_string()), all }),
    };
    assert!(matches!(reseed_execute(args(None, true), &known), Ok(ReseedTarget::All)));
    match reseed_execute(args(Some("idle"), false), &known) {
        Ok(ReseedTarget::Id(id)) => assert_eq!(id, "idle"),
        _ => panic!("expected one id"),
    }
    let f = reseed_execute(args(None, false), &known).err().unwrap();
    assert_eq!(
        f.message,
        "Error: exactly one of --id <id> or --all is required. Valid ids: context-alert, idle"
    );
    assert_eq!(reset_report(&known, "/c/injected-messages.toml"), "Reset context-alert, idle in /c/injected-messages.toml");
}

#[test]
fn yaml_scalars_drop_document_markers() {
    assert_eq!(yaml_scalar("Senior Dev"), "Senior Dev");
    assert_eq!(yaml_scalar("a: b"), "'a: b'");
    assert_eq!(yaml_scalar("true"), "'true'");
    assert!(!yaml_scalar("line one\nline two").starts_with("---"));
}

#[test]
fn stale_lock_recovery_rules() {
    assert_eq!(lock_owner_pid(r#"{"pid": 4242, "createdUnixSecs": 1}"#), Some(4242));
    assert_eq!(lock_owner_pid(r#"{"pid": 4294967296}"#), None);
    assert_eq!(lock_owner_pid(r#"{"pid": "12"}"#), None);
    assert_eq!(lock_owner_pid("not json"), None);
    assert_eq!(lock_owner_pid(""), None);
    assert!(lock_is_stale(Some(1), false, true, 0));
    assert!(!lock_is_stale(Some(1), true, false, 1));
    assert!(lock_is_stale(None, false, false, 1));
    assert!(!lock_is_stale(None, false, false, 2));
    assert!(!lock_is_stale(None, false, true, 1));
    assert!(is_previous_cache_name("agency-templates.prev-20240101", "agency-templates"));
    assert!(!is_previous_cache_name("agency-templates", "agency-templates"));
}
