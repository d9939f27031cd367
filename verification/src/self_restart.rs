//! `self-handoff-and-restart`: the daemon's acknowledgement read as an exit
//! code, and the status text printed once the request is queued.
use vstd::prelude::*;
use crate::json::{json_member, json_member_of};
use crate::self_clear::{queue_ack_exit_code, queue_ack_exit_code_spec};
use crate::text::{append_str, decimal, push_decimal, string_of};

verus! {

broadcast use vstd::string::group_string_axioms;

/// The arguments of `self-handoff-and-restart`.
pub struct SelfRestartArgs {
    pub token: Option<String>,
    pub root: Option<String>,
    /// Seconds to wait for the daemon's acknowledgement.
    pub timeout: u64,
}

/// Exit code for the daemon's acknowledgement `content`: 0 when queued (now
/// or before), 2 otherwise.
pub fn interpret_self_restart_response_exit_code(content: &str) -> (r: i32)
    ensures
        r == queue_ack_exit_code_spec(json_member_of(content@, "status"@)),
{
    let status = json_member(content, "status");
    queue_ack_exit_code(&status)
}

pub open spec fn self_restart_queued_status_spec(settle: nat) -> Seq<char> {
    "self-handoff-and-restart requested. Phase 1 respawns this session only after it is continuously idle for "@
        + decimal(settle)
        + "s, on the same configured coding agent and the same profile letter it is running now; your Selection-UI coding-agent and profile assignment are not changed. Phase 2 then waits a fresh "@
        + decimal(settle)
        + "s of sustained idle on the NEW session, archives SELF-HANDOFF.md into self-clear/ and injects a prompt naming the exact archived file to resume from. If SELF-FORGET.md was present at queue time, that prompt includes a compact closed-background forgotten summary. Best-effort and NOT guaranteed (a busy session or a daemon restart drops it). If your context is still present later, re-issue."@
}

/// The status text once the restart is queued, for a settle time of
/// `settle_secs` seconds.
pub fn self_restart_queued_status(settle_secs: u64) -> (out: String)
    ensures
        out@ == self_restart_queued_status_spec(settle_secs as nat),
{
    let mut v: Vec<char> = Vec::new();
    append_str(
        &mut v,
        "self-handoff-and-restart requested. Phase 1 respawns this session only after it is continuously idle for ",
    );
    push_decimal(&mut v, settle_secs);
    append_str(
        &mut v,
        "s, on the same configured coding agent and the same profile letter it is running now; your Selection-UI coding-agent and profile assignment are not changed. Phase 2 then waits a fresh ",
    );
    push_decimal(&mut v, settle_secs);
    append_str(
        &mut v,
        "s of sustained idle on the NEW session, archives SELF-HANDOFF.md into self-clear/ and injects a prompt naming the exact archived file to resume from. If SELF-FORGET.md was present at queue time, that prompt includes a compact closed-background forgotten summary. Best-effort and NOT guaranteed (a busy session or a daemon restart drops it). If your context is still present later, re-issue.",
    );
    string_of(&v)
}

} // verus!
