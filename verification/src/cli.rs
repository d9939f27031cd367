//! Shared command-line checks: the shape check of a session token, the
//! required agent root, and how a refused invocation is reported.
use vstd::prelude::*;
use crate::text::{chars_of, lower_seq, owned, seq_eq, str_eq, trim};

verus! {

broadcast use vstd::string::group_string_axioms;

/// Error for a missing or empty token.
pub const MISSING_TOKEN_ERROR: &'static str =
    "Error: --token is required. In agent sessions, pass AGENTSCOMMANDER_TOKEN from the environment. If it is unavailable, restart or respawn the session.";

/// Error for a token that is neither a known root token nor a UUID. It never
/// repeats the token it refuses.
pub const INVALID_TOKEN_ERROR: &'static str =
    "Error: invalid token supplied. Expected a valid session token (UUID) or root token. In agent sessions, use AGENTSCOMMANDER_TOKEN from the environment. If validation keeps failing, restart or respawn the session.";

/// Error for a missing agent root.
pub const MISSING_ROOT_ERROR: &'static str =
    "Error: --root is required. Specify your agent's root directory.";

/// A refused invocation: the exit code and the message for stderr.
#[derive(Debug)]
pub struct CliFailure {
    pub exit_code: i32,
    pub message: String,
}

/// ASCII hexadecimal digit, either case.
pub open spec fn is_hex_char(c: char) -> bool {
    ('0' <= c && c <= '9') || ('a' <= c && c <= 'f') || ('A' <= c && c <= 'F')
}

pub open spec fn is_hyphen_slot(i: int) -> bool {
    i == 8 || i == 13 || i == 18 || i == 23
}

/// `xxxxxxxx-xxxx-xxxx-xxxx-xxxxxxxxxxxx` with hex digits.
pub open spec fn hyphenated_shape(s: Seq<char>) -> bool {
    &&& s.len() == 36
    &&& forall|i: int|
        0 <= i < 36 ==> if is_hyphen_slot(i) {
            s[i] == '-'
        } else {
            is_hex_char(#[trigger] s[i])
        }
}

/// Thirty-two hex digits.
pub open spec fn simple_shape(s: Seq<char>) -> bool {
    s.len() == 32 && forall|i: int| 0 <= i < 32 ==> is_hex_char(#[trigger] s[i])
}

/// The text forms that `uuid::Uuid::parse_str` accepts: simple, hyphenated,
/// hyphenated in braces, or hyphenated behind a `urn:uuid:` prefix in any
/// ASCII case.
pub open spec fn uuid_shaped(s: Seq<char>) -> bool {
    ||| simple_shape(s)
    ||| hyphenated_shape(s)
    ||| (s.len() == 38 && s[0] == '{' && s[37] == '}' && hyphenated_shape(s.subrange(1, 37)))
    ||| (s.len() == 45 && lower_seq(s.take(9)) == "urn:uuid:"@ && hyphenated_shape(s.skip(9)))
}

/// `uuid::Uuid::parse_str`, reduced to whether it succeeds. Its parser
/// accepts exactly the four forms of [`uuid_shaped`], hex digits in either
/// case; the contract claims that and nothing about the parsed value.
#[verifier::external_body]
fn parses_as_uuid(s: &str) -> (r: bool)
    ensures
        r == uuid_shaped(s@),
{
    uuid::Uuid::parse_str(s).is_ok()
}

pub open spec fn opt_view(o: Option<String>) -> Option<Seq<char>> {
    match o {
        Some(s) => Some(s@),
        None => None,
    }
}

/// What the shape check of a token decides: refused with a fixed message, or
/// accepted, as a root token or not.
pub open spec fn token_check_spec(
    token: Option<Seq<char>>,
    root_token: Option<Seq<char>>,
    master_token: Option<Seq<char>>,
) -> Result<(Seq<char>, bool), Seq<char>> {
    match token {
        None => Err(MISSING_TOKEN_ERROR@),
        Some(t) => if t.len() == 0 {
            Err(MISSING_TOKEN_ERROR@)
        } else if root_token == Some(t) {
            Ok((t, true))
        } else if master_token is Some && crate::text::trim_ws(master_token->0) == t {
            Ok((t, true))
        } else if !uuid_shaped(t) {
            Err(INVALID_TOKEN_ERROR@)
        } else {
            Ok((t, false))
        },
    }
}

/// A refused token always gets one of two fixed messages, whatever it was:
/// the missing-token message when it is absent or empty, the invalid-token
/// message otherwise; so no refusal repeats the token. Both tell the agent to
/// use `AGENTSCOMMANDER_TOKEN` and to restart or respawn the session, and
/// the second says an invalid token was supplied.
pub proof fn lemma_token_refusals_are_fixed(
    token: Option<Seq<char>>,
    root_token: Option<Seq<char>>,
    master_token: Option<Seq<char>>,
)
    ensures
        token_check_spec(token, root_token, master_token) matches Err(e) ==> (if token is None || token->0.len()
            == 0 {
            e == MISSING_TOKEN_ERROR@
        } else {
            e == INVALID_TOKEN_ERROR@
        }),
        crate::text::contains_sub(MISSING_TOKEN_ERROR@, "AGENTSCOMMANDER_TOKEN"@),
        crate::text::contains_sub(MISSING_TOKEN_ERROR@, "restart or respawn"@),
        crate::text::contains_sub(INVALID_TOKEN_ERROR@, "AGENTSCOMMANDER_TOKEN"@),
        crate::text::contains_sub(INVALID_TOKEN_ERROR@, "restart or respawn"@),
        crate::text::contains_sub(INVALID_TOKEN_ERROR@, "invalid token supplied"@),
{
    reveal_strlit("Error: --token is required. In agent sessions, pass AGENTSCOMMANDER_TOKEN from the environment. If it is unavailable, restart or respawn the session.");
    reveal_strlit("Error: invalid token supplied. Expected a valid session token (UUID) or root token. In agent sessions, use AGENTSCOMMANDER_TOKEN from the environment. If validation keeps failing, restart or respawn the session.");
    reveal_strlit("AGENTSCOMMANDER_TOKEN");
    reveal_strlit("restart or respawn");
    reveal_strlit("invalid token supplied");
    let m = MISSING_TOKEN_ERROR@;
    let v = INVALID_TOKEN_ERROR@;
    assert(m.subrange(52int, 52int + 21) =~= "AGENTSCOMMANDER_TOKEN"@);
    assert(crate::text::occurs_at(m, "AGENTSCOMMANDER_TOKEN"@, 52));
    assert(m.subrange(118int, 118int + 18) =~= "restart or respawn"@);
    assert(crate::text::occurs_at(m, "restart or respawn"@, 118));
    assert(v.subrange(107int, 107int + 21) =~= "AGENTSCOMMANDER_TOKEN"@);
    assert(crate::text::occurs_at(v, "AGENTSCOMMANDER_TOKEN"@, 107));
    assert(v.subrange(180int, 180int + 18) =~= "restart or respawn"@);
    assert(crate::text::occurs_at(v, "restart or respawn"@, 180));
    assert(v.subrange(7int, 7int + 22) =~= "invalid token supplied"@);
    assert(crate::text::occurs_at(v, "invalid token supplied"@, 7));
}

/// The shape check of a session token. `root_token` is the root token of the
/// settings, if any; `master_token` the content of the master-token file, if
/// it could be read. A token equal to either (the file's content taken
/// trimmed) is a root token; any other token must be shaped as a UUID.
pub fn validate_cli_token(
    token: &Option<String>,
    root_token: &Option<String>,
    master_token: &Option<String>,
) -> (r: Result<(String, bool), String>)
    ensures
        match r {
            Ok((t, is_root)) => token_check_spec(
                opt_view(*token),
                opt_view(*root_token),
                opt_view(*master_token),
            ) == Ok::<(Seq<char>, bool), Seq<char>>((t@, is_root)),
            Err(e) => token_check_spec(
                opt_view(*token),
                opt_view(*root_token),
                opt_view(*master_token),
            ) == Err::<(Seq<char>, bool), Seq<char>>(e@),
        },
{
    let t = match token {
        Some(t) => {
            if chars_of(t.as_str()).len() == 0 {
                return Err(owned(MISSING_TOKEN_ERROR));
            }
            t
        },
        None => {
            return Err(owned(MISSING_TOKEN_ERROR));
        },
    };
    match root_token {
        Some(rt) => {
            if str_eq(rt.as_str(), t.as_str()) {
                return Ok((t.clone(), true));
            }
        },
        None => {},
    }
    match master_token {
        Some(m) => {
            let mv = chars_of(m.as_str());
            let trimmed = trim(&mv);
            let tv = chars_of(t.as_str());
            if seq_eq(&trimmed, &tv) {
                return Ok((t.clone(), true));
            }
        },
        None => {},
    }
    if !parses_as_uuid(t.as_str()) {
        return Err(owned(INVALID_TOKEN_ERROR));
    }
    Ok((t.clone(), false))
}

/// The token shape check, then the agent root, as the commands that act for
/// an agent require them: the root when both pass, otherwise the failure
/// (exit code 1) with its message.
pub fn require_token_and_root(
    token: &Option<String>,
    root: &Option<String>,
    root_token: &Option<String>,
    master_token: &Option<String>,
) -> (r: Result<String, CliFailure>)
    ensures
        match r {
            Ok(root_dir) => token_check_spec(
                opt_view(*token),
                opt_view(*root_token),
                opt_view(*master_token),
            ) is Ok && opt_view(*root) == Some(root_dir@),
            Err(f) => f.exit_code == 1 && (match token_check_spec(
                opt_view(*token),
                opt_view(*root_token),
                opt_view(*master_token),
            ) {
                Err(e) => f.message@ == e,
                Ok(_) => root.is_none() && f.message@ == MISSING_ROOT_ERROR@,
            }),
        },
{
    match validate_cli_token(token, root_token, master_token) {
        Err(e) => Err(CliFailure { exit_code: 1, message: e }),
        Ok(_) => match root {
            Some(r) => Ok(r.clone()),
            None => Err(CliFailure { exit_code: 1, message: owned(MISSING_ROOT_ERROR) }),
        },
    }
}

/// Console attachment, a no-op where stdio needs no console.
pub fn attach_parent_console() {
}

} // verus!
