use agentscommander::list_peers::SessionStatus;
use agentscommander::session_safety::{
    ensure_no_live_sessions_under, find_live_sessions_under, path_is_under, path_key,
    status_text, strip_long_prefix, LiveSession,
};

fn session(name: &str, dir: &str, status: Option<SessionStatus>) -> LiveSession {
    LiveSession {
        name: name.to_string(),
        working_directory: dir.to_string(),
        canonical_directory: dir.to_string(),
        status,
    }
}

#[test]
fn long_prefixes_are_stripped() {
    assert_eq!(strip_long_prefix(r"\\?\UNC\server\share"), r"\\server\share");
    assert_eq!(strip_long_prefix(r"\\?\C:\proj"), r"C:\proj");
    assert_eq!(strip_long_prefix("/proj"), "/proj");
}

#[test]
fn path_keys_drop_trailing_separators() {
    assert_eq!(path_key("/proj/a///"), "/proj/a");
    assert_eq!(path_key("/proj/a"), "/proj/a");
}

#[test]
fn under_means_equal_or_below_a_separator() {
    assert!(path_is_under("/proj/a", "/proj/a"));
    assert!(path_is_under("/proj/a/b", "/proj/a/"));
    assert!(!path_is_under("/proj/ab", "/proj/a"));
    assert!(!path_is_under("/proj", "/proj/a"));
}

#[test]
fn status_texts_match_the_debug_names() {
    assert_eq!(status_text(None), "Unknown");
    assert_eq!(status_text(Some(SessionStatus::Idle)), "Idle");
    assert_eq!(status_text(Some(SessionStatus::Exited(-1))), "Exited(-1)");
    assert_eq!(status_text(Some(SessionStatus::Exited(3))), "Exited(3)");
}

#[test]
fn blockers_are_the_sessions_under_root_in_order() {
    let sessions = vec![
        session("a", "/proj/x/wg-1", Some(SessionStatus::Running)),
        session("b", "/other", Some(SessionStatus::Idle)),
        session("c", "/proj/x", None),
    ];
    let blockers = find_live_sessions_under("/proj/x", &sessions, false);
    assert_eq!(blockers.len(), 2);
    assert_eq!(blockers[0].name, "a");
    assert_eq!(blockers[0].status, "Running");
    assert_eq!(blockers[1].name, "c");
    assert_eq!(blockers[1].status, "Unknown");
    assert!(!blockers[0].stale_state);
    assert!(ensure_no_live_sessions_under("/proj/y", &Vec::new()).is_ok());
    assert_eq!(
        ensure_no_live_sessions_under("/proj/x", &blockers).unwrap_err(),
        "Cannot delete while live sessions exist under /proj/x:\n  - a at /proj/x/wg-1 (Running)\n  - c at /proj/x (Unknown)"
    );
}

#[test]
fn stale_daemon_state_is_noted() {
    let sessions = vec![session("a", "/proj/x", Some(SessionStatus::Active))];
    let blockers = find_live_sessions_under("/proj/x", &sessions, true);
    let e = ensure_no_live_sessions_under("/proj/x", &blockers).unwrap_err();
    assert!(e.ends_with(
        "\nDaemon state is not confirmed running, so this may be stale session state. Close sessions or clear stale state before retrying."
    ));
}
