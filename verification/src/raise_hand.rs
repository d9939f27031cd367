//! `raise-hand`: the daemon's reply read as the raised flag.
use vstd::prelude::*;
use crate::json::{json_member, json_member_of, JsonMember, JsonMemberView};

verus! {

/// The arguments of `raise-hand`.
pub struct RaiseHandArgs {
    pub token: Option<String>,
    pub root: Option<String>,
    /// Seconds to wait for the daemon's reply.
    pub timeout: u64,
}

/// The reply's boolean `raised` member, or exit code 2 when the reply is not
/// JSON or has no boolean `raised`.
pub open spec fn raise_hand_spec(raised: JsonMemberView) -> Result<bool, i32> {
    match raised {
        JsonMemberView::Flag(b) => Ok(b),
        _ => Err(2),
    }
}

/// The raised flag of the daemon's reply `content` (see [`raise_hand_spec`]).
pub fn interpret_raise_hand_response(content: &str) -> (r: Result<bool, i32>)
    ensures
        r == raise_hand_spec(json_member_of(content@, "raised"@)),
{
    match json_member(content, "raised") {
        JsonMember::Flag(b) => Ok(b),
        _ => Err(2),
    }
}

} // verus!
