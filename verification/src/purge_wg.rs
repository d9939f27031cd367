//! `purge-wg`: how the daemon's reply decides the exit code and the status
//! line.
use vstd::prelude::*;
use crate::json::{json_member, json_member_of, text_member, text_member_of, JsonMember, JsonMemberView};
use crate::text::{append_str, string_of, str_eq};

verus! {

broadcast use vstd::string::group_string_axioms;

/// The arguments of `purge-wg`.
pub struct PurgeWgArgs {
    pub token: Option<String>,
    pub root: Option<String>,
    /// Fail unless the resolved workgroup has exactly this name.
    pub wg: Option<String>,
    /// Inject an exit command and wait, instead of killing at once.
    pub graceful: bool,
    /// Graceful shutdown timeout per session, in seconds.
    pub timeout: u32,
    /// Only evaluate whether the purge could go ahead; destroy nothing.
    pub dry_run: bool,
    /// Printable silence a peer must show to be purgeable, in milliseconds.
    pub quiet_period_ms: u64,
}

/// Exit code for the reply's `status` member: 0 purged (or a dry run that
/// would pass), 3 the busy check refused, 4 a destroy failed after the busy
/// check passed, 2 anything else (outcome unknown).
pub open spec fn purge_exit_code_spec(status: JsonMemberView) -> i32 {
    match status {
        JsonMemberView::Text(s) => if s == "purged"@ || s == "dry_run_ready"@ {
            0
        } else if s == "rejected_busy"@ || s == "restore_in_progress"@ || s == "dry_run_blocked"@ {
            3
        } else if s == "partial_failure"@ || s == "failed_root_guard"@ {
            4
        } else {
            2
        },
        _ => 2,
    }
}

/// Exit code for the reply's `status` member (see [`purge_exit_code_spec`]).
pub fn purge_exit_code(status: &JsonMember) -> (r: i32)
    ensures
        r == purge_exit_code_spec(status@),
{
    match status {
        JsonMember::Text(s) => {
            let s = s.as_str();
            if str_eq(s, "purged") || str_eq(s, "dry_run_ready") {
                0
            } else if str_eq(s, "rejected_busy") || str_eq(s, "restore_in_progress") || str_eq(
                s,
                "dry_run_blocked",
            ) {
                3
            } else if str_eq(s, "partial_failure") || str_eq(s, "failed_root_guard") {
                4
            } else {
                2
            }
        },
        _ => 2,
    }
}

/// Exit code for the daemon's reply `content`; only its `status` member is
/// read.
pub fn interpret_purge_response_exit_code(content: &str) -> (r: i32)
    ensures
        r == purge_exit_code_spec(json_member_of(content@, "status"@)),
{
    let status = json_member(content, "status");
    purge_exit_code(&status)
}

pub open spec fn or_unknown(o: Option<Seq<char>>) -> Seq<char> {
    match o {
        Some(s) => s,
        None => "unknown"@,
    }
}

/// The status line for a reply with string status `status`; `sid` and `cwd`
/// are the offending session's id and directory, when the reply names them.
pub open spec fn purge_prose_spec(
    status: Seq<char>,
    sid: Option<Seq<char>>,
    cwd: Option<Seq<char>>,
) -> Option<Seq<char>> {
    if status == "rejected_busy"@ {
        Some("Purge rejected: one or more peers are busy. See per-peer table above."@)
    } else if status == "dry_run_ready"@ {
        Some("Dry-run: gate would PASS. No sessions destroyed."@)
    } else if status == "dry_run_blocked"@ {
        Some("Dry-run: gate would REJECT. One or more peers are not purgeable."@)
    } else if status == "restore_in_progress"@ {
        Some("Daemon is still restoring sessions; retry in a few seconds."@)
    } else if status == "partial_failure"@ {
        Some("Purge partially failed: some sessions could not be destroyed."@)
    } else if status == "failed_root_guard"@ {
        Some(
            "Root guard tripped: session "@ + or_unknown(sid) + " at '"@ + or_unknown(cwd)
                + "' appears to be a Root Agent record. Nothing destroyed. Repair sessions.json and retry."@,
        )
    } else {
        None
    }
}

/// The status line for the reply `content`, if its outcome needs one.
pub fn status_prose(content: &str) -> (r: Option<String>)
    ensures
        r.is_some() ==> text_member(content@, "status"@).is_some(),
        match text_member(content@, "status"@) {
            Some(st) => match purge_prose_spec(
                st,
                text_member(content@, "offending_session_id"@),
                text_member(content@, "offending_working_directory"@),
            ) {
                Some(line) => r.is_some() && r->0@ == line,
                None => r.is_none(),
            },
            None => r.is_none(),
        },
{
    let status = match text_member_of(content, "status") {
        Some(s) => s,
        None => {
            return None;
        },
    };
    let s = status.as_str();
    let line: &str = if str_eq(s, "rejected_busy") {
        "Purge rejected: one or more peers are busy. See per-peer table above."
    } else if str_eq(s, "dry_run_ready") {
        "Dry-run: gate would PASS. No sessions destroyed."
    } else if str_eq(s, "dry_run_blocked") {
        "Dry-run: gate would REJECT. One or more peers are not purgeable."
    } else if str_eq(s, "restore_in_progress") {
        "Daemon is still restoring sessions; retry in a few seconds."
    } else if str_eq(s, "partial_failure") {
        "Purge partially failed: some sessions could not be destroyed."
    } else if str_eq(s, "failed_root_guard") {
        let sid = text_member_of(content, "offending_session_id");
        let cwd = text_member_of(content, "offending_working_directory");
        let mut v: Vec<char> = Vec::new();
        append_str(&mut v, "Root guard tripped: session ");
        match &sid {
            Some(x) => append_str(&mut v, x.as_str()),
            None => append_str(&mut v, "unknown"),
        }
        append_str(&mut v, " at '");
        match &cwd {
            Some(x) => append_str(&mut v, x.as_str()),
            None => append_str(&mut v, "unknown"),
        }
        append_str(
            &mut v,
            "' appears to be a Root Agent record. Nothing destroyed. Repair sessions.json and retry.",
        );
        return Some(string_of(&v));
    } else {
        return None;
    };
    Some(crate::text::owned(line))
}

} // verus!
