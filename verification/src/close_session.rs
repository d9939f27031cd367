//! `close-session`: the wait budget, the reports when no reply comes, and how
//! the daemon's reply decides the exit code and the status line.
use vstd::prelude::*;
use crate::json::{json_member, json_member_of, text_member, text_member_of, JsonMember, JsonMemberView};
use crate::text::{append_chars, append_str, chars_of, decimal, push_decimal, string_of};

verus! {

broadcast use vstd::string::group_string_axioms;

/// Seconds added to `--timeout` for the whole wait for the daemon's reply.
pub const RESPONSE_WAIT_OVERHEAD_SECS: u64 = 60;

/// The arguments of `close-session`.
pub struct CloseSessionArgs {
    pub token: Option<String>,
    pub root: Option<String>,
    /// The agent whose sessions are closed.
    pub target: String,
    /// Kill at once, with no graceful shutdown.
    pub force: bool,
    /// Graceful shutdown timeout per session, in seconds.
    pub timeout: u32,
}

/// Seconds to wait for the reply: the graceful timeout plus a fixed overhead.
pub fn response_wait_budget(timeout_secs: u32) -> (r: u64)
    ensures
        r == timeout_secs + RESPONSE_WAIT_OVERHEAD_SECS,
{
    timeout_secs as u64 + RESPONSE_WAIT_OVERHEAD_SECS
}

pub open spec fn no_response_error_spec(
    budget_secs: nat,
    request_id: Seq<char>,
    msg_id: Seq<char>,
    delivered_seen: bool,
) -> Seq<char> {
    if delivered_seen {
        "close-session delivered but daemon did not write a response within "@ + decimal(
            budget_secs,
        ) + "s; outcome unknown (request "@ + request_id + ", message "@ + msg_id + ")"@
    } else {
        "close-session: no confirmation within "@ + decimal(budget_secs)
            + "s; outcome unknown (request "@ + request_id + ", message "@ + msg_id
            + " still queued or in progress). The daemon may still be closing sessions in the background: closing several sessions takes about sessions x --timeout seconds and this wait budgets one. Verify with list-peers-lean before retrying."@
    }
}

/// The report when no reply came within the budget; it names both the
/// request and the message, in either case.
pub fn format_no_response_error(
    budget_secs: u64,
    request_id: &str,
    msg_id: &str,
    delivered_seen: bool,
) -> (out: String)
    ensures
        out@ == no_response_error_spec(budget_secs as nat, request_id@, msg_id@, delivered_seen),
{
    let mut v: Vec<char> = Vec::new();
    if delivered_seen {
        append_str(&mut v, "close-session delivered but daemon did not write a response within ");
    } else {
        append_str(&mut v, "close-session: no confirmation within ");
    }
    push_decimal(&mut v, budget_secs);
    append_str(&mut v, "s; outcome unknown (request ");
    append_str(&mut v, request_id);
    append_str(&mut v, ", message ");
    append_str(&mut v, msg_id);
    if delivered_seen {
        append_str(&mut v, ")");
    } else {
        append_str(
            &mut v,
            " still queued or in progress). The daemon may still be closing sessions in the background: closing several sessions takes about sessions x --timeout seconds and this wait budgets one. Verify with list-peers-lean before retrying.",
        );
    }
    string_of(&v)
}

/// Exit code for the reply's `status` member: 0 for a known outcome, 2 when
/// the reply is not JSON, lacks a string status, or has an unknown one.
pub open spec fn close_exit_code_spec(status: JsonMemberView) -> i32 {
    match status {
        JsonMemberView::Text(s) => if s == "closed"@ || s == "already_closed"@ || s == "no_match"@
            || s == "restore_in_progress"@ {
            0
        } else {
            2
        },
        _ => 2,
    }
}

/// Exit code for the reply's `status` member (see [`close_exit_code_spec`]).
pub fn close_exit_code(status: &JsonMember) -> (r: i32)
    ensures
        r == close_exit_code_spec(status@),
{
    match status {
        JsonMember::Text(s) => {
            if crate::text::str_eq(s.as_str(), "closed") || crate::text::str_eq(
                s.as_str(),
                "already_closed",
            ) || crate::text::str_eq(s.as_str(), "no_match") || crate::text::str_eq(
                s.as_str(),
                "restore_in_progress",
            ) {
                0
            } else {
                2
            }
        },
        _ => 2,
    }
}

/// Exit code for the daemon's reply `content`.
pub fn interpret_close_response_exit_code(content: &str) -> (r: i32)
    ensures
        r == close_exit_code_spec(json_member_of(content@, "status"@)),
{
    let status = json_member(content, "status");
    close_exit_code(&status)
}

/// The status line printed after the reply, for the outcomes that need one.
pub open spec fn close_prose_spec(status: Option<Seq<char>>, target: Seq<char>) -> Option<Seq<char>> {
    match status {
        Some(s) => if s == "no_match"@ {
            Some("No sessions matched '"@ + target + "' \u{2014} nothing to close."@)
        } else if s == "already_closed"@ {
            Some("Session for '"@ + target + "' already closed (raced before destroy)."@)
        } else if s == "restore_in_progress"@ {
            Some(
                "Daemon is still restoring sessions; '"@ + target
                    + "' may exist once restore completes. Retry in a few seconds."@,
            )
        } else {
            None
        },
        None => None,
    }
}

pub open spec fn target_or_empty(content: Seq<char>) -> Seq<char> {
    match text_member(content, "target"@) {
        Some(t) => t,
        None => Seq::empty(),
    }
}

/// The status line for the reply `content`, if its outcome needs one.
pub fn status_prose(content: &str) -> (r: Option<String>)
    ensures
        match r {
            Some(line) => close_prose_spec(text_member(content@, "status"@), target_or_empty(content@))
                == Some(line@),
            None => close_prose_spec(
                text_member(content@, "status"@),
                target_or_empty(content@),
            ).is_none(),
        },
{
    let status = match text_member_of(content, "status") {
        Some(s) => s,
        None => {
            return None;
        },
    };
    let target = match text_member_of(content, "target") {
        Some(t) => chars_of(t.as_str()),
        None => Vec::new(),
    };
    let mut v: Vec<char> = Vec::new();
    if crate::text::str_eq(status.as_str(), "no_match") {
        append_str(&mut v, "No sessions matched '");
        append_chars(&mut v, &target);
        append_str(&mut v, "' \u{2014} nothing to close.");
    } else if crate::text::str_eq(status.as_str(), "already_closed") {
        append_str(&mut v, "Session for '");
        append_chars(&mut v, &target);
        append_str(&mut v, "' already closed (raced before destroy).");
    } else if crate::text::str_eq(status.as_str(), "restore_in_progress") {
        append_str(&mut v, "Daemon is still restoring sessions; '");
        append_chars(&mut v, &target);
        append_str(&mut v, "' may exist once restore completes. Retry in a few seconds.");
    } else {
        return None;
    }
    Some(string_of(&v))
}

} // verus!
