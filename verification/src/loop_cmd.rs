//! `loop`: the policy and prompt a loop is created or updated with, and the
//! exit code of a loop command.
use vstd::prelude::*;
use vstd::std_specs::convert::FromSpecImpl;
use vstd::utf8::{decode_utf8, valid_utf8};
use crate::text::{append_str, chars_of, decimal, decode_utf8_text, owned, push_decimal, string_of, trim, trim_ws};

verus! {

broadcast use vstd::string::group_string_axioms;

/// The ceiling, in bytes, of a prompt file.
pub const MAX_LOOP_PROMPT_FILE_BYTES: u64 = 131072;

/// `--busy-coordinator` as given on the command line.
#[derive(Clone, Copy, Debug, PartialEq, Eq, Structural)]
pub enum BusyCoordinatorCli {
    WaitUntilIdle,
    ForceInject,
    Skip,
}

/// What a loop does when the Room coordinator is busy at its time.
#[derive(Clone, Copy, Debug, PartialEq, Eq, Structural)]
pub enum BusyCoordinatorPolicy {
    WaitUntilIdle,
    ForceInject,
    Skip,
}

impl From<BusyCoordinatorCli> for BusyCoordinatorPolicy {
    fn from(value: BusyCoordinatorCli) -> (r: Self) {
        match value {
            BusyCoordinatorCli::WaitUntilIdle => BusyCoordinatorPolicy::WaitUntilIdle,
            BusyCoordinatorCli::ForceInject => BusyCoordinatorPolicy::ForceInject,
            BusyCoordinatorCli::Skip => BusyCoordinatorPolicy::Skip,
        }
    }
}

impl FromSpecImpl<BusyCoordinatorCli> for BusyCoordinatorPolicy {
    open spec fn obeys_from_spec() -> bool {
        true
    }

    open spec fn from_spec(v: BusyCoordinatorCli) -> BusyCoordinatorPolicy {
        busy_policy_of(v)
    }
}

/// The policy each `--busy-coordinator` value names.
pub open spec fn busy_policy_of(v: BusyCoordinatorCli) -> BusyCoordinatorPolicy {
    match v {
        BusyCoordinatorCli::WaitUntilIdle => BusyCoordinatorPolicy::WaitUntilIdle,
        BusyCoordinatorCli::ForceInject => BusyCoordinatorPolicy::ForceInject,
        BusyCoordinatorCli::Skip => BusyCoordinatorPolicy::Skip,
    }
}

/// `--session-start` as given on the command line.
#[derive(Clone, Copy, Debug, PartialEq, Eq, Structural)]
pub enum SessionStartCli {
    Fresh,
    Accumulate,
}

/// Whether each firing of a loop starts a fresh coordinator conversation.
#[derive(Clone, Copy, Debug, PartialEq, Eq, Structural)]
pub enum LoopSessionStart {
    Fresh,
    Accumulate,
}

impl From<SessionStartCli> for LoopSessionStart {
    fn from(value: SessionStartCli) -> (r: Self) {
        match value {
            SessionStartCli::Fresh => LoopSessionStart::Fresh,
            SessionStartCli::Accumulate => LoopSessionStart::Accumulate,
        }
    }
}

impl FromSpecImpl<SessionStartCli> for LoopSessionStart {
    open spec fn obeys_from_spec() -> bool {
        true
    }

    open spec fn from_spec(v: SessionStartCli) -> LoopSessionStart {
        match v {
            SessionStartCli::Fresh => LoopSessionStart::Fresh,
            SessionStartCli::Accumulate => LoopSessionStart::Accumulate,
        }
    }
}

pub const BUSY_POLICY_CONFLICT: &'static str =
    "--force-inject-when-busy conflicts with --busy-coordinator values other than force-inject";

pub open spec fn busy_policy_spec(busy: Option<BusyCoordinatorCli>, force_inject_when_busy: bool) -> Result<
    BusyCoordinatorPolicy,
    Seq<char>,
> {
    if force_inject_when_busy {
        if busy is Some && busy->0 != BusyCoordinatorCli::ForceInject {
            Err(BUSY_POLICY_CONFLICT@)
        } else {
            Ok(BusyCoordinatorPolicy::ForceInject)
        }
    } else {
        match busy {
            Some(b) => Ok(busy_policy_of(b)),
            None => Ok(BusyCoordinatorPolicy::WaitUntilIdle),
        }
    }
}

/// The busy-coordinator policy: `--force-inject-when-busy` forces injection
/// and conflicts with any other `--busy-coordinator`; otherwise the given
/// policy, waiting until idle by default.
pub fn resolve_busy_policy(busy: Option<BusyCoordinatorCli>, force_inject_when_busy: bool) -> (r: Result<
    BusyCoordinatorPolicy,
    String,
>)
    ensures
        match r {
            Ok(p) => busy_policy_spec(busy, force_inject_when_busy) == Ok::<BusyCoordinatorPolicy, Seq<char>>(p),
            Err(e) => busy_policy_spec(busy, force_inject_when_busy) == Err::<BusyCoordinatorPolicy, Seq<char>>(
                e@,
            ),
        },
{
    if force_inject_when_busy {
        match busy {
            Some(value) => {
                let policy = BusyCoordinatorPolicy::from(value);
                if policy != BusyCoordinatorPolicy::ForceInject {
                    return Err(owned(BUSY_POLICY_CONFLICT));
                }
            },
            None => {},
        }
        return Ok(BusyCoordinatorPolicy::ForceInject);
    }
    match busy {
        Some(value) => Ok(BusyCoordinatorPolicy::from(value)),
        None => Ok(BusyCoordinatorPolicy::WaitUntilIdle),
    }
}

/// Where a loop's prompt comes from.
pub enum PromptSource {
    /// The `--prompt` text.
    Inline(String),
    /// The `--prompt-file` path, to be read.
    File(String),
}

/// The prompt flags: exactly one of `--prompt` and `--prompt-file`, and an
/// inline prompt that is not blank.
pub fn resolve_prompt(prompt: Option<&str>, prompt_file: Option<&str>) -> (r: Result<PromptSource, String>)
    ensures
        match r {
            Ok(PromptSource::Inline(p)) => prompt_file is None && prompt is Some && p@ == prompt->0@
                && trim_ws(p@).len() > 0,
            Ok(PromptSource::File(f)) => prompt is None && prompt_file is Some && f@ == prompt_file->0@,
            Err(e) => if prompt is Some && prompt_file is Some {
                e@ == "Use either --prompt or --prompt-file, not both"@
            } else if prompt is None && prompt_file is None {
                e@ == "Either --prompt or --prompt-file is required"@
            } else {
                prompt is Some && trim_ws(prompt->0@).len() == 0 && e@ == "--prompt cannot be empty"@
            },
        },
{
    match (prompt, prompt_file) {
        (Some(_), Some(_)) => Err(owned("Use either --prompt or --prompt-file, not both")),
        (None, None) => Err(owned("Either --prompt or --prompt-file is required")),
        (Some(p), None) => {
            if trim(&chars_of(p)).len() == 0 {
                Err(owned("--prompt cannot be empty"))
            } else {
                Ok(PromptSource::Inline(owned(p)))
            }
        },
        (None, Some(path)) => Ok(PromptSource::File(owned(path))),
    }
}

/// A prompt file's size, from its metadata, must be within the ceiling.
pub fn check_prompt_file_size(path: &str, len: u64) -> (r: Result<(), String>)
    ensures
        match r {
            Ok(()) => len <= MAX_LOOP_PROMPT_FILE_BYTES,
            Err(e) => len > MAX_LOOP_PROMPT_FILE_BYTES && e@ == "Prompt file '"@ + path@ + "' is larger than "@
                + decimal(MAX_LOOP_PROMPT_FILE_BYTES as nat) + " bytes"@,
        },
{
    if len > MAX_LOOP_PROMPT_FILE_BYTES {
        let mut v: Vec<char> = Vec::new();
        append_str(&mut v, "Prompt file '");
        append_str(&mut v, path);
        append_str(&mut v, "' is larger than ");
        push_decimal(&mut v, MAX_LOOP_PROMPT_FILE_BYTES);
        append_str(&mut v, " bytes");
        Err(string_of(&v))
    } else {
        Ok(())
    }
}

/// A prompt file's text: UTF-8 and not blank; kept as it is.
pub fn prompt_file_text(path: &str, bytes: Vec<u8>) -> (r: Result<String, String>)
    ensures
        match r {
            Ok(t) => valid_utf8(bytes@) && t@ == decode_utf8(bytes@) && trim_ws(t@).len() > 0,
            Err(e) => if !valid_utf8(bytes@) {
                e@ == "Prompt file '"@ + path@ + "' is not valid UTF-8"@
            } else {
                trim_ws(decode_utf8(bytes@)).len() == 0 && e@ == "Prompt file '"@ + path@ + "' is empty"@
            },
        },
{
    let mut v: Vec<char> = Vec::new();
    append_str(&mut v, "Prompt file '");
    append_str(&mut v, path);
    match decode_utf8_text(bytes) {
        Err(_) => {
            append_str(&mut v, "' is not valid UTF-8");
            Err(string_of(&v))
        },
        Ok(text) => {
            if trim(&chars_of(text.as_str())).len() == 0 {
                append_str(&mut v, "' is empty");
                Err(string_of(&v))
            } else {
                Ok(text)
            }
        },
    }
}

/// The exit code of a loop command, and the error line it prints.
pub fn loop_outcome(result: Result<(), String>) -> (r: (i32, Option<String>))
    ensures
        match result {
            Ok(()) => r.0 == 0 && r.1 is None,
            Err(e) => r.0 == 1 && (r.1 matches Some(line) && line@ == "Error: "@ + e@),
        },
{
    match result {
        Ok(()) => (0, None),
        Err(e) => {
            let mut v: Vec<char> = Vec::new();
            append_str(&mut v, "Error: ");
            append_str(&mut v, e.as_str());
            (1, Some(string_of(&v)))
        },
    }
}

} // verus!
