//! `self-handoff-and-clear`: the daemon's acknowledgement read as an exit
//! code, and the status text printed once the request is queued.
use vstd::prelude::*;
use crate::json::{json_member, json_member_of, JsonMember, JsonMemberView};
use crate::text::{append_str, decimal, push_decimal, str_eq, string_of};

verus! {

broadcast use vstd::string::group_string_axioms;

/// The arguments of `self-handoff-and-clear`.
pub struct SelfClearArgs {
    pub token: Option<String>,
    pub root: Option<String>,
    /// Seconds to wait for the daemon's acknowledgement.
    pub timeout: u64,
}

/// 0 when the daemon acknowledged the request as queued (now or before), 2
/// for any other reply.
pub open spec fn queue_ack_exit_code_spec(status: JsonMemberView) -> i32 {
    match status {
        JsonMemberView::Text(s) => if s == "queued"@ || s == "already_queued"@ {
            0
        } else {
            2
        },
        _ => 2,
    }
}

/// Exit code for an acknowledgement's `status` member (see
/// [`queue_ack_exit_code_spec`]).
pub fn queue_ack_exit_code(status: &JsonMember) -> (r: i32)
    ensures
        r == queue_ack_exit_code_spec(status@),
{
    match status {
        JsonMember::Text(s) => {
            if str_eq(s.as_str(), "queued") || str_eq(s.as_str(), "already_queued") {
                0
            } else {
                2
            }
        },
        _ => 2,
    }
}

/// Exit code for the daemon's acknowledgement `content`.
pub fn interpret_self_clear_response_exit_code(content: &str) -> (r: i32)
    ensures
        r == queue_ack_exit_code_spec(json_member_of(content@, "status"@)),
{
    let status = json_member(content, "status");
    queue_ack_exit_code(&status)
}

pub open spec fn self_clear_queued_status_spec(settle: nat) -> Seq<char> {
    "self-handoff-and-clear requested. Phase 1 injects provider-resolved clear text only after this session is continuously idle for "@
        + decimal(settle)
        + "s: /new for an exact-stem direct Pi shell, or /clear for the other supported direct coding-agent shells. Phase 2 then waits a fresh "@
        + decimal(settle)
        + "s of post-clear idle, archives SELF-HANDOFF.md into self-clear/ and injects a prompt naming the exact archived file to resume from. If SELF-FORGET.md was present at queue time, that prompt includes a compact closed-background forgotten summary. Best-effort and NOT guaranteed (a busy session or a daemon restart drops it). If your context is still present later, re-issue."@
}

/// The status text once the clear is queued, for a settle time of
/// `settle_secs` seconds.
pub fn self_clear_queued_status(settle_secs: u64) -> (out: String)
    ensures
        out@ == self_clear_queued_status_spec(settle_secs as nat),
{
    let mut v: Vec<char> = Vec::new();
    append_str(
        &mut v,
        "self-handoff-and-clear requested. Phase 1 injects provider-resolved clear text only after this session is continuously idle for ",
    );
    push_decimal(&mut v, settle_secs);
    append_str(
        &mut v,
        "s: /new for an exact-stem direct Pi shell, or /clear for the other supported direct coding-agent shells. Phase 2 then waits a fresh ",
    );
    push_decimal(&mut v, settle_secs);
    append_str(
        &mut v,
        "s of post-clear idle, archives SELF-HANDOFF.md into self-clear/ and injects a prompt naming the exact archived file to resume from. If SELF-FORGET.md was present at queue time, that prompt includes a compact closed-background forgotten summary. Best-effort and NOT guaranteed (a busy session or a daemon restart drops it). If your context is still present later, re-issue.",
    );
    string_of(&v)
}

} // verus!
