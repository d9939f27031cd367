use agentscommander::list_peers::{
    apply_peer_filter, build_session_index_from, compute_peer_status, lean_role_summary, norm_path,
    preflight, preflight_lean, select_peers, CandidateSession, LeanPeerInfo, ListPeersArgs,
    ListPeersLeanArgs, PeerInfo, PersistedSession, SessionIndex, SessionStatus, ROLE_SUMMARY_MAX,
};
use agentscommander::list_peers::{canon_or_norm, extract_role_section, unknown_peers_message, PeerStatus};
use agentscommander::list_peers::{coordinator_replica, wg_peer, wg_session_name, ReplicaIdentity};
use agentscommander::list_peers::{
    has_peer_named, merge_team_peer, wg_peer_name, wg_replica_names, wg_team_name,
};

fn cand(name: &str, status: SessionStatus, waiting: bool) -> CandidateSession {
    CandidateSession {
        id: "11111111-1111-1111-1111-111111111111".to_string(),
        name: name.to_string(),
        status,
        waiting_for_input: waiting,
    }
}

fn ps_row(name: &str, cwd: &str, status: Option<SessionStatus>, id_present: bool) -> PersistedSession {
    PersistedSession {
        name: name.to_string(),
        working_directory: cwd.to_string(),
        id: if id_present {
            Some("11111111-1111-1111-1111-111111111111".to_string())
        } else {
            None
        },
        status,
        waiting_for_input: Some(false),
        ..Default::default()
    }
}

fn sample_peer_info(name: &str) -> PeerInfo {
    PeerInfo {
        name: name.to_string(),
        path: r"C:\some\path".to_string(),
        status: "active".to_string(),
        role: "Senior architect with deep Rust expertise. Owns the PTY layer.".to_string(),
        teams: vec!["ac-devs".to_string()],
        reachable: true,
        last_coding_agent: Some("shell-agent".to_string()),
        working: true,
        session_status: "running".to_string(),
        session_id: Some("11111111-1111-1111-1111-111111111111".to_string()),
        waiting_for_input: false,
        exit_code: None,
    }
}

#[test]
fn norm_path_lowercases_and_normalizes_slashes() {
    assert_eq!(norm_path(r"C:\Users\Foo\Bar"), "c:/users/foo/bar");
    assert_eq!(norm_path("C:/Users/Foo/Bar/"), "c:/users/foo/bar");
    assert_eq!(norm_path(r"\\?\C:\Users\Foo"), "c:/users/foo");
    assert_eq!(norm_path("c:/x"), "c:/x");
}

#[test]
fn no_session_yields_none() {
    let idx = SessionIndex::new();
    let ps = compute_peer_status(r"C:\does\not\exist", None, &idx);
    assert!(!ps.working);
    assert_eq!(ps.session_status, "none");
    assert_eq!(ps.status_legacy, "unknown");
    assert!(ps.session_id.is_none());
    assert!(!ps.waiting_for_input);
    assert!(ps.exit_code.is_none());
}

#[test]
fn running_session_is_working() {
    let mut idx = SessionIndex::new();
    idx.insert("c:/x".to_string(), vec![cand("any", SessionStatus::Running, false)]);
    let ps = compute_peer_status("C:/X", None, &idx);
    assert!(ps.working);
    assert_eq!(ps.session_status, "running");
    assert_eq!(ps.status_legacy, "active");
    assert!(ps.session_id.is_some());
}

#[test]
fn active_session_is_working() {
    let mut idx = SessionIndex::new();
    idx.insert("c:/x".to_string(), vec![cand("any", SessionStatus::Active, false)]);
    let ps = compute_peer_status(r"C:\X", None, &idx);
    assert!(ps.working);
    assert_eq!(ps.session_status, "active");
    assert_eq!(ps.status_legacy, "active");
}

#[test]
fn idle_session_is_not_working() {
    let mut idx = SessionIndex::new();
    idx.insert("c:/x".to_string(), vec![cand("any", SessionStatus::Idle, false)]);
    let ps = compute_peer_status("C:/X", None, &idx);
    assert!(!ps.working);
    assert_eq!(ps.session_status, "idle");
    assert_eq!(ps.status_legacy, "unknown");
}

#[test]
fn waiting_overrides_running() {
    let mut idx = SessionIndex::new();
    idx.insert("c:/x".to_string(), vec![cand("any", SessionStatus::Running, true)]);
    let ps = compute_peer_status("C:/X", None, &idx);
    assert!(!ps.working);
    assert_eq!(ps.session_status, "waiting");
    assert!(ps.waiting_for_input);
}

#[test]
fn exited_session_carries_exit_code() {
    let mut idx = SessionIndex::new();
    idx.insert("c:/x".to_string(), vec![cand("any", SessionStatus::Exited(42), false)]);
    let ps = compute_peer_status("C:/X", None, &idx);
    assert_eq!(ps.session_status, "exited");
    assert_eq!(ps.exit_code, Some(42));
    assert!(!ps.working);
}

#[test]
fn priority_picks_active_over_idle_at_same_cwd() {
    let mut idx = SessionIndex::new();
    idx.insert(
        "c:/x".to_string(),
        vec![cand("any", SessionStatus::Idle, false), cand("any", SessionStatus::Active, false)],
    );
    let ps = compute_peer_status("C:/X", None, &idx);
    assert_eq!(ps.session_status, "active");
    assert!(ps.working);
}

#[test]
fn extended_length_prefix_normalizes() {
    let mut idx = SessionIndex::new();
    idx.insert("c:/x".to_string(), vec![cand("any", SessionStatus::Running, false)]);
    let ps = compute_peer_status(r"\\?\C:\X", None, &idx);
    assert_eq!(ps.session_status, "running");
}

#[test]
fn wg_name_filter_matches_only_named_session() {
    let mut idx = SessionIndex::new();
    idx.insert(
        "c:/x".to_string(),
        vec![
            cand("wg-20/dev", SessionStatus::Active, false),
            cand("[temp]-foo", SessionStatus::Active, false),
            cand("other-name", SessionStatus::Running, true),
        ],
    );
    let ps = compute_peer_status("C:/X", Some("wg-20/dev"), &idx);
    assert_eq!(ps.session_status, "active");
    assert!(ps.working);
    assert!(!ps.waiting_for_input);
}

#[test]
fn wg_name_filter_returns_none_when_no_name_match() {
    let mut idx = SessionIndex::new();
    idx.insert("c:/x".to_string(), vec![cand("other-name", SessionStatus::Active, false)]);
    let ps = compute_peer_status("C:/X", Some("wg-20/dev"), &idx);
    assert_eq!(ps.session_status, "none");
    assert!(!ps.working);
}

#[test]
fn build_index_skips_temp_sessions() {
    let rows = vec![ps_row("[temp]-dispatch", r"C:\X", Some(SessionStatus::Active), true)];
    let idx = build_session_index_from(&rows);
    assert!(idx.is_empty(), "temp-prefixed sessions must be skipped");
}

#[test]
fn build_index_skips_rows_without_id() {
    let rows = vec![ps_row("wg-20/dev", r"C:\X", Some(SessionStatus::Active), false)];
    let idx = build_session_index_from(&rows);
    assert!(idx.is_empty(), "rows without id must be skipped");
}

#[test]
fn build_index_skips_rows_without_status() {
    let rows = vec![ps_row("wg-20/dev", r"C:\X", None, true)];
    let idx = build_session_index_from(&rows);
    assert!(idx.is_empty(), "rows without status must be skipped");
}

#[test]
fn build_index_normalizes_cwd_with_extended_prefix() {
    let rows = vec![ps_row("wg-20/dev", r"\\?\C:\X", Some(SessionStatus::Active), true)];
    let idx = build_session_index_from(&rows);
    assert!(idx.contains_key("c:/x"));
}

#[test]
fn build_index_groups_multiple_rows_at_same_cwd() {
    let rows = vec![
        ps_row("wg-20/dev", r"C:\X", Some(SessionStatus::Active), true),
        ps_row("other", r"C:/X", Some(SessionStatus::Idle), true),
    ];
    let idx = build_session_index_from(&rows);
    let bucket = idx.get("c:/x").expect("entries grouped under c:/x");
    assert_eq!(bucket.len(), 2);
}

#[test]
fn lean_preserves_name_working_session_status_reachable() {
    let peer = sample_peer_info("project:wg-1-team/dev");
    let lean = LeanPeerInfo::from(&peer);
    assert_eq!(lean.name, peer.name);
    assert_eq!(lean.working, peer.working);
    assert_eq!(lean.session_status, peer.session_status);
    assert_eq!(lean.reachable, peer.reachable);
    assert_eq!(lean.waiting_for_input, peer.waiting_for_input);
    assert_eq!(lean.teams, peer.teams);
}

#[test]
fn lean_waiting_for_input_false_when_no_session() {
    let mut peer = sample_peer_info("p");
    peer.session_status = "none".to_string();
    peer.waiting_for_input = false;
    let lean = LeanPeerInfo::from(&peer);
    assert!(!lean.waiting_for_input);
    assert_eq!(lean.session_status, "none");
}

#[test]
fn lean_role_summary_is_produced_by_lean_role_summary_helper() {
    let mut peer = sample_peer_info("p");
    peer.role = "x".repeat(200);
    let lean = LeanPeerInfo::from(&peer);
    assert_eq!(lean.role_summary, lean_role_summary(&peer.role));
    assert!(lean.role_summary.chars().count() <= ROLE_SUMMARY_MAX);
    assert!(lean.role_summary.ends_with('…'));
}

#[test]
fn lean_projection_preserves_peer_set_order_and_names() {
    let peers: Vec<PeerInfo> = vec![
        sample_peer_info("project/origin-agent"),
        sample_peer_info("project:wg-1-team/dev"),
        sample_peer_info("project:wg-1-team/architect"),
    ];
    let lean_names: Vec<String> = peers.iter().map(LeanPeerInfo::from).map(|l| l.name).collect();
    let full_names: Vec<String> = peers.iter().map(|p| p.name.clone()).collect();
    assert_eq!(lean_names, full_names);
}

#[test]
fn role_summary_takes_first_non_empty_line() {
    assert_eq!(lean_role_summary("First line.\nSecond line."), "First line.");
    assert_eq!(lean_role_summary("\n\nFirst non-empty.\nSecond."), "First non-empty.");
}

#[test]
fn role_summary_truncates_to_at_most_max_chars_with_ellipsis() {
    let long = "x".repeat(200);
    let out = lean_role_summary(&long);
    assert_eq!(out.chars().count(), ROLE_SUMMARY_MAX);
    assert!(out.ends_with('…'));
    let prefix: String = out.chars().take(ROLE_SUMMARY_MAX - 1).collect();
    assert_eq!(prefix, "x".repeat(ROLE_SUMMARY_MAX - 1));
}

#[test]
fn role_summary_returns_empty_for_no_role_sentinels() {
    assert_eq!(lean_role_summary(""), "");
    assert_eq!(lean_role_summary("   \n  \n"), "");
    assert_eq!(lean_role_summary("No role description available."), "");
    assert_eq!(lean_role_summary("WG replica agent."), "");
}

#[test]
fn role_summary_filters_agentscommander_preamble() {
    let preamble = "You are running inside an AgentsCommander session — \
                    a terminal session manager that coordinates multiple AI agents.";
    assert_eq!(lean_role_summary(preamble), "");

    let context_header = "# AgentsCommander Context\n\nYou are running inside…";
    assert_eq!(lean_role_summary(context_header), "");
}

#[test]
fn role_summary_no_ellipsis_at_exact_limit() {
    let exactly = "x".repeat(ROLE_SUMMARY_MAX);
    let out = lean_role_summary(&exactly);
    assert_eq!(out.chars().count(), ROLE_SUMMARY_MAX);
    assert!(!out.ends_with('…'));
}

#[test]
fn role_summary_ellipsis_at_one_over_limit() {
    let one_over = "x".repeat(ROLE_SUMMARY_MAX + 1);
    let out = lean_role_summary(&one_over);
    assert_eq!(out.chars().count(), ROLE_SUMMARY_MAX);
    assert!(out.ends_with('…'));
    let prefix: String = out.chars().take(ROLE_SUMMARY_MAX - 1).collect();
    assert_eq!(prefix, "x".repeat(ROLE_SUMMARY_MAX - 1));
}

#[test]
fn execute_returns_1_when_token_missing() {
    let args = ListPeersArgs { token: None, root: Some("anything".into()), peer: Vec::new() };
    assert_eq!(preflight(&args, &None, &None).unwrap_err().exit_code, 1);
}

#[test]
fn execute_returns_1_when_root_missing() {
    let args = ListPeersArgs {
        token: Some("11111111-1111-1111-1111-111111111111".into()),
        root: None,
        peer: Vec::new(),
    };
    assert_eq!(preflight(&args, &None, &None).unwrap_err().exit_code, 1);
}

#[test]
fn execute_lean_returns_1_when_token_missing() {
    let args = ListPeersLeanArgs { token: None, root: Some("anything".into()), peer: Vec::new() };
    assert_eq!(preflight_lean(&args, &None, &None).unwrap_err().exit_code, 1);
}

#[test]
fn execute_lean_returns_1_when_root_missing() {
    let args = ListPeersLeanArgs {
        token: Some("11111111-1111-1111-1111-111111111111".into()),
        root: None,
        peer: Vec::new(),
    };
    assert_eq!(preflight_lean(&args, &None, &None).unwrap_err().exit_code, 1);
}

#[test]
fn peer_filter_empty_request_returns_input_unchanged() {
    let peers = vec![
        sample_peer_info("project/origin-a"),
        sample_peer_info("project:wg-1-team/dev"),
        sample_peer_info("project:wg-1-team/arch"),
    ];
    let result = apply_peer_filter(peers, &[]).expect("empty filter is Ok");
    let names: Vec<&str> = result.iter().map(|p| p.name.as_str()).collect();
    assert_eq!(
        names,
        vec!["project/origin-a", "project:wg-1-team/dev", "project:wg-1-team/arch"],
        "empty --peer must preserve discovery order verbatim"
    );
}

#[test]
fn peer_filter_single_peer_returns_only_that_peer() {
    let peers = vec![
        sample_peer_info("project:wg-1-team/dev"),
        sample_peer_info("project:wg-1-team/arch"),
        sample_peer_info("project/origin-a"),
    ];
    let result = apply_peer_filter(peers, &["project:wg-1-team/arch".to_string()]).expect("Ok");
    assert_eq!(result.len(), 1);
    assert_eq!(result[0].name, "project:wg-1-team/arch");
}

#[test]
fn peer_filter_multiple_peers_preserves_user_order() {
    let peers = vec![
        sample_peer_info("project:wg-1-team/dev"),
        sample_peer_info("project:wg-1-team/arch"),
        sample_peer_info("project/origin-a"),
    ];
    let requested = vec![
        "project:wg-1-team/arch".to_string(),
        "project/origin-a".to_string(),
        "project:wg-1-team/dev".to_string(),
    ];
    let result = apply_peer_filter(peers, &requested).expect("Ok");
    let names: Vec<&str> = result.iter().map(|p| p.name.as_str()).collect();
    assert_eq!(names, vec!["project:wg-1-team/arch", "project/origin-a", "project:wg-1-team/dev"]);
}

#[test]
fn peer_filter_duplicates_are_silently_deduplicated() {
    let peers = vec![sample_peer_info("project:wg-1-team/dev"), sample_peer_info("project:wg-1-team/arch")];
    let requested = vec![
        "project:wg-1-team/dev".to_string(),
        "project:wg-1-team/arch".to_string(),
        "project:wg-1-team/dev".to_string(),
        "project:wg-1-team/arch".to_string(),
    ];
    let result = apply_peer_filter(peers, &requested).expect("Ok");
    let names: Vec<&str> = result.iter().map(|p| p.name.as_str()).collect();
    assert_eq!(
        names,
        vec!["project:wg-1-team/dev", "project:wg-1-team/arch"],
        "duplicates must collapse to first-occurrence order with no\
         repeats and no error"
    );
}

#[test]
fn peer_filter_unknown_peer_returns_err_with_unknown_names() {
    let peers = vec![sample_peer_info("project:wg-1-team/dev"), sample_peer_info("project:wg-1-team/arch")];
    let requested = vec![
        "project:wg-1-team/dev".to_string(),
        "project:wg-1-team/ghost".to_string(),
        "project:wg-1-team/missing".to_string(),
    ];
    let err = apply_peer_filter(peers, &requested).expect_err("must Err");
    assert_eq!(
        err,
        vec!["project:wg-1-team/ghost".to_string(), "project:wg-1-team/missing".to_string()],
        "Err must list every unknown name in first-occurrence order"
    );
}

#[test]
fn peer_filter_unknown_dedupes_before_reporting() {
    let peers = vec![sample_peer_info("project:wg-1-team/dev")];
    let requested = vec!["project:wg-1-team/ghost".to_string(), "project:wg-1-team/ghost".to_string()];
    let err = apply_peer_filter(peers, &requested).expect_err("must Err");
    assert_eq!(err, vec!["project:wg-1-team/ghost".to_string()]);
}

#[test]
fn peer_filter_match_is_exact_no_substring() {
    let peers = vec![sample_peer_info("project:wg-1-team/dev")];
    let err = apply_peer_filter(peers, &["dev".to_string()]).expect_err("must Err");
    assert_eq!(err, vec!["dev".to_string()]);
}

#[test]
fn peer_filter_match_is_case_sensitive() {
    let peers = vec![sample_peer_info("project:wg-1-team/Dev")];
    let err = apply_peer_filter(peers, &["project:wg-1-team/dev".to_string()])
        .expect_err("must Err — names differ in case");
    assert_eq!(err, vec!["project:wg-1-team/dev".to_string()]);
}

#[test]
fn peer_filter_keeps_unreachable_peers_when_name_matches() {
    let mut unreachable = sample_peer_info("project:wg-1-team/unreachable");
    unreachable.reachable = false;
    let peers = vec![unreachable];
    let result = apply_peer_filter(peers, &["project:wg-1-team/unreachable".to_string()]).expect("Ok");
    assert_eq!(result.len(), 1);
    assert!(!result[0].reachable, "unreachable peer must survive the filter");
}

#[test]
fn peer_filter_against_empty_discovery_errors_with_all_unknowns() {
    let err = apply_peer_filter(Vec::new(), &["project/anything".to_string()]).expect_err("must Err");
    assert_eq!(err, vec!["project/anything".to_string()]);
}

#[test]
fn peer_filter_against_empty_discovery_and_empty_request_is_ok() {
    let result = apply_peer_filter(Vec::new(), &[]).expect("Ok");
    assert!(result.is_empty());
}

// ── further cases ────────────────────────────────────────────────────────

#[test]
fn peer_filter_keeps_last_of_duplicate_discovered_names() {
    let mut first = sample_peer_info("p/a");
    first.path = "first".to_string();
    let mut second = sample_peer_info("p/a");
    second.path = "second".to_string();
    let result = apply_peer_filter(vec![first, second], &["p/a".to_string()]).expect("Ok");
    assert_eq!(result.len(), 1);
    assert_eq!(result[0].path, "second");
}

#[test]
fn unknown_peer_report_names_available_peers() {
    let peers = vec![sample_peer_info("p/a"), sample_peer_info("p/b")];
    let err = select_peers(peers, &vec!["p/x".to_string(), "p/y".to_string()]).unwrap_err();
    assert_eq!(err.exit_code, 1);
    assert_eq!(
        err.message,
        "Error: unknown peer(s) requested via --peer: p/x, p/y\nAvailable peers: p/a, p/b"
    );
    let err = select_peers(Vec::new(), &vec!["p/x".to_string()]).unwrap_err();
    assert_eq!(
        err.message,
        "Error: unknown peer(s) requested via --peer: p/x\nNo peers were discovered for this --root."
    );
    assert_eq!(
        unknown_peers_message(&vec!["a".to_string()], &vec![]),
        "Error: unknown peer(s) requested via --peer: a\nNo peers were discovered for this --root."
    );
}

#[test]
fn select_peers_without_request_keeps_all() {
    let peers = vec![sample_peer_info("p/a"), sample_peer_info("p/b")];
    let kept = select_peers(peers, &Vec::new()).ok().unwrap();
    assert_eq!(kept.len(), 2);
}

#[test]
fn index_keeps_rows_in_order_and_latest_row_wins_priority_ties() {
    let rows = vec![
        ps_row("one", r"C:\X", Some(SessionStatus::Idle), true),
        ps_row("two", r"D:\Y\", Some(SessionStatus::Running), true),
        ps_row("three", "c:/x/", Some(SessionStatus::Idle), true),
    ];
    let idx = build_session_index_from(&rows);
    let bucket = idx.get("c:/x").unwrap();
    assert_eq!(bucket.len(), 2);
    assert_eq!(bucket[0].name, "one");
    assert_eq!(bucket[1].name, "three");
    assert!(idx.contains_key("d:/y"));
    assert!(!idx.contains_key("c:/z"));
    let ps = compute_peer_status("d:/y", None, &idx);
    assert_eq!(ps.session_status, "running");
    let mut idx2 = SessionIndex::new();
    let mut a = cand("a", SessionStatus::Idle, false);
    a.id = "first".to_string();
    let mut b = cand("b", SessionStatus::Idle, false);
    b.id = "second".to_string();
    idx2.insert("k".to_string(), vec![a, b]);
    let ps = compute_peer_status("K", None, &idx2);
    assert_eq!(ps.session_id, Some("second".to_string()));
}

#[test]
fn canonical_form_is_preferred_when_available() {
    assert_eq!(canon_or_norm(r"C:\Raw", Some(r"\\?\D:\Real\")), "d:/real");
    assert_eq!(canon_or_norm(r"C:\Raw\", None), "c:/raw");
}

#[test]
fn none_status_is_the_empty_state() {
    let ps = PeerStatus::none();
    assert_eq!(ps.session_status, "none");
    assert_eq!(ps.status_legacy, "unknown");
}

#[test]
fn role_section_takes_role_heading_lines_then_falls_back() {
    let doc = "# Title\n\n## Role\nBuilds things.\n\nReviews code.\nShips.\nFourth.\n## Other\nx";
    assert_eq!(extract_role_section(doc, 5, "none"), "Builds things. Reviews code. Ships.");
    let doc = "## Role Prompt\nA\n---\nB";
    assert_eq!(extract_role_section(doc, 5, "none"), "A");
    let doc = "# Title\nfirst\n\n## Notes\nsecond\nthird";
    assert_eq!(extract_role_section(doc, 2, "none"), "first second");
    assert_eq!(extract_role_section("# only heading\n", 3, "WG replica agent."), "WG replica agent.");
    let doc = "## Role\n\n## Role\n  kept  \n";
    assert_eq!(extract_role_section(doc, 3, "none"), "kept");
}

#[test]
fn wg_names_give_team_and_peer_names() {
    assert_eq!(wg_team_name("wg-1-ac-devs"), Some("ac-devs".to_string()));
    assert_eq!(wg_team_name("wg-12-x"), Some("x".to_string()));
    assert_eq!(wg_team_name("wg-1"), None);
    assert_eq!(wg_team_name("room-1-x"), None);
    assert_eq!(wg_peer_name("proj", "wg-1-dev", "tech-lead"), "proj:wg-1-dev/tech-lead");
    let n = wg_replica_names("__agent_alice", "wg-1-devs", ".ac-new", "proj-x").unwrap();
    assert_eq!((n.agent.as_str(), n.wg_name.as_str(), n.project.as_str()), ("alice", "wg-1-devs", "proj-x"));
    assert!(wg_replica_names("_agent_alice", "wg-1-devs", ".ac-new", "p").is_none());
    assert!(wg_replica_names("__agent_alice", "devs", ".ac-new", "p").is_none());
    assert!(wg_replica_names("__agent_alice", "wg-1-devs", ".ac", "p").is_none());
}

#[test]
fn team_members_seen_twice_are_merged() {
    let mut a = sample_peer_info("proj/a");
    a.reachable = false;
    let mut peers = vec![a, sample_peer_info("proj/b")];
    assert!(has_peer_named(&peers, "proj/a"));
    assert!(!has_peer_named(&peers, "proj/c"));
    assert!(merge_team_peer(&mut peers, "proj/a", "qa", true));
    assert_eq!(peers.len(), 2);
    assert_eq!(peers[0].teams, vec!["ac-devs".to_string(), "qa".to_string()]);
    assert!(peers[0].reachable);
    assert!(merge_team_peer(&mut peers, "proj/a", "qa", false));
    assert_eq!(peers[0].teams.len(), 2);
    assert!(peers[0].reachable);
    assert!(!merge_team_peer(&mut peers, "proj/c", "qa", true));
    assert_eq!(peers.len(), 2);
    assert_eq!(peers[1].name, "proj/b");
}

fn replica(dir: &str, identity: Option<&str>) -> ReplicaIdentity {
    ReplicaIdentity { dir_name: dir.to_string(), identity: identity.map(|s| s.to_string()) }
}

#[test]
fn room_coordinator_is_first_replica_with_coordinator_identity() {
    let reps = vec![
        replica("__agent_dev", Some("/p/.ac-new/_agent_dev")),
        replica("notes", Some("/p/.ac-new/_agent_lead")),
        replica("__agent_lead", None),
        replica("__agent_boss", Some("/p/.ac-new/_agent_lead")),
        replica("__agent_lead2", Some("/p/.ac-new/_agent_lead")),
    ];
    assert_eq!(coordinator_replica("/p/.ac-new/_agent_lead", &reps), Some("boss".to_string()));
    assert_eq!(coordinator_replica("/p/.ac-new/_agent_none", &reps), None);
    assert_eq!(coordinator_replica("x", &vec![]), None);
}

#[test]
fn room_replica_peer_carries_room_name_and_status() {
    assert_eq!(wg_session_name("wg-1-devs", "dev"), "wg-1-devs/dev");
    let p = wg_peer(
        "proj",
        "dev",
        "wg-1-devs",
        "/p/.ac-new/wg-1-devs/__agent_dev",
        true,
        PeerStatus::none(),
        "Builds things".to_string(),
        Some("codex".to_string()),
    );
    assert_eq!(p.name, "proj:wg-1-devs/dev");
    assert_eq!(p.teams, vec!["wg-1-devs".to_string()]);
    assert_eq!(p.status, "unknown");
    assert_eq!(p.session_status, "none");
    assert!(!p.working);
    assert!(p.reachable);
    assert_eq!(p.last_coding_agent.as_deref(), Some("codex"));
}
