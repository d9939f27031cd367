//! `create-agent` and `create-agent-matrix`: the checks before an Agent
//! Matrix is created, which coding agent a `--launch` request names, and the
//! launch verdict read from the running app's answer.
use vstd::prelude::*;
use crate::cli::CliFailure;
use crate::coding_agent::AgentConfig;
use crate::text::{
    append_chars, append_str, chars_all, chars_of, contains_exec, contains_sub, eq_ignore_ascii_case,
    join, join_chars, lower_seq, owned, starts_with, starts_with_exec, string_of, to_lowercase,
    trim, trim_ws, unicode_lowercase, views, trim_by, trim_set, in_set,
};

verus! {

broadcast use vstd::string::group_string_axioms;

/// The arguments of `create-agent`.
pub struct CreateAgentArgs {
    /// A registered project folder name.
    pub project: String,
    pub name: String,
    pub description: String,
    pub role_template: Option<String>,
    /// Coding agent to launch after creation.
    pub launch: Option<String>,
    pub root: Option<String>,
    pub token: Option<String>,
}

/// A session the running app is asked to start.
pub struct SessionRequest {
    pub id: String,
    pub cwd: String,
    pub session_name: String,
    pub agent_id: String,
    pub shell: String,
    pub shell_args: Vec<String>,
    pub requested_profile: Option<String>,
    pub timestamp: String,
}

/// What the running app did with a session request.
#[derive(PartialEq, Eq, Structural, Clone, Copy, Debug)]
pub enum SessionRequestResultStatus {
    Created,
    Rejected,
}

/// The running app's answer to a session request.
pub struct SessionRequestResult {
    pub id: String,
    pub status: SessionRequestResultStatus,
    pub session_id: Option<String>,
    pub error: Option<String>,
}

/// What is asked of the Agent Matrix creation.
pub struct MatrixCreateRequest {
    pub project: String,
    pub name: String,
    pub description: String,
    pub role_template: Option<String>,
    pub launch: Option<String>,
}

pub open spec fn opt_view(o: Option<String>) -> Option<Seq<char>> {
    match o {
        Some(s) => Some(s@),
        None => None,
    }
}

pub const EMPTY_DESCRIPTION_ERROR: &'static str = "Error: --description must not be empty";

/// The creation `create-agent` asks for: its arguments, the description
/// trimmed; a blank description exits with code 1.
pub fn create_agent_request(args: CreateAgentArgs) -> (r: Result<MatrixCreateRequest, CliFailure>)
    ensures
        trim_ws(args.description@).len() == 0 <==> r is Err,
        r matches Err(f) ==> f.exit_code == 1 && f.message@ == EMPTY_DESCRIPTION_ERROR@,
        r matches Ok(req) ==> req.project@ == args.project@ && req.name@ == args.name@
            && req.description@ == trim_ws(args.description@) && opt_view(req.role_template)
            == opt_view(args.role_template) && opt_view(req.launch) == opt_view(args.launch),
{
    let dv = chars_of(args.description.as_str());
    let d = trim(&dv);
    if d.len() == 0 {
        return Err(CliFailure { exit_code: 1, message: owned(EMPTY_DESCRIPTION_ERROR) });
    }
    Ok(
        MatrixCreateRequest {
            project: args.project,
            name: args.name,
            description: string_of(&d),
            role_template: args.role_template,
            launch: args.launch,
        },
    )
}

/// Whether agent `a` answers the (trimmed, non-empty) request `req`: its id
/// or label equal ignoring ASCII case, its lower-cased label containing the
/// lower-cased request, or its lower-cased command starting with it.
pub open spec fn answers(a: AgentConfig, req: Seq<char>) -> bool {
    ||| lower_seq(a.id@) == lower_seq(req)
    ||| lower_seq(a.label@) == lower_seq(req)
    ||| contains_sub(unicode_lowercase(a.label@), unicode_lowercase(req))
    ||| starts_with(unicode_lowercase(a.command@), unicode_lowercase(req))
}

/// Position of the first agent of `agents` that answers `req`, or -1.
pub open spec fn first_answer(agents: Seq<AgentConfig>, req: Seq<char>) -> int
    decreases agents.len(),
{
    if agents.len() == 0 {
        -1
    } else if answers(agents[0], req) {
        0
    } else {
        let r = first_answer(agents.drop_first(), req);
        if r < 0 {
            -1
        } else {
            r + 1
        }
    }
}

/// The agent a `--launch` request names: the first agent that answers the
/// trimmed request (see [`answers`]); none for a blank request.
pub open spec fn launch_agent_index(agents: Seq<AgentConfig>, requested: Seq<char>) -> int {
    let req = trim_ws(requested);
    if req.len() == 0 {
        -1
    } else {
        first_answer(agents, req)
    }
}

/// The agent a `--launch` request names (see [`launch_agent_index`]).
pub fn find_launch_agent<'a>(agents: &'a Vec<AgentConfig>, requested: &str) -> (r: Option<
    &'a AgentConfig,
>)
    ensures
        match r {
            Some(a) => launch_agent_index(agents@, requested@) >= 0 && *a == agents@[launch_agent_index(
                agents@,
                requested@,
            )],
            None => launch_agent_index(agents@, requested@) == -1,
        },
{
    let rv = chars_of(requested);
    let req = trim(&rv);
    if req.len() == 0 {
        return None;
    }
    let req_s = string_of(&req);
    let req_lower_s = to_lowercase(req_s.as_str());
    let req_lower = chars_of(req_lower_s.as_str());
    let ghost rq = req@;
    let mut i: usize = 0;
    assert(agents@.skip(0) =~= agents@);
    while i < agents.len()
        invariant
            i <= agents@.len(),
            rq == trim_ws(requested@),
            rq.len() > 0,
            req@ == rq,
            req_lower@ == unicode_lowercase(rq),
            first_answer(agents@, rq) == (if first_answer(agents@.skip(i as int), rq) < 0 {
                -1
            } else {
                first_answer(agents@.skip(i as int), rq) + i
            }),
        decreases agents@.len() - i,
    {
        let a = &agents[i];
        assert(agents@.skip(i as int)[0] == agents@[i as int]);
        let idv = chars_of(a.id.as_str());
        let lv = chars_of(a.label.as_str());
        let label_lower_s = to_lowercase(a.label.as_str());
        let label_lower = chars_of(label_lower_s.as_str());
        let command_lower_s = to_lowercase(a.command.as_str());
        let command_lower = chars_of(command_lower_s.as_str());
        if eq_ignore_ascii_case(&idv, &req) || eq_ignore_ascii_case(&lv, &req) || contains_exec(
            &label_lower,
            &req_lower,
        ) || starts_with_exec(&command_lower, &req_lower) {
            return Some(a);
        }
        assert(agents@.skip(i as int).drop_first() =~= agents@.skip(i + 1));
        i = i + 1;
    }
    None
}

/// The ASCII whitespace chars: space, tab, line feed, form feed, carriage
/// return.
pub open spec fn ascii_ws_set() -> Seq<char> {
    seq![' ', '\t', '\n', '\u{c}', '\r']
}

/// The command a launch agent starts with: its configured command without
/// surrounding ASCII whitespace; refused when nothing is left.
pub fn launch_command(agent: &AgentConfig) -> (r: Result<String, String>)
    ensures
        match r {
            Ok(c) => c@ == trim_by(agent.command@, in_set(ascii_ws_set())) && c@.len() > 0,
            Err(e) => trim_by(agent.command@, in_set(ascii_ws_set())).len() == 0 && e@ == "launch agent '"@
                + agent.id@ + "' has an empty command"@,
        },
{
    let set: Vec<char> = vec![' ', '\t', '\n', '\u{c}', '\r'];
    assert(set@ =~= ascii_ws_set());
    let cv = chars_of(agent.command.as_str());
    let t = trim_set(&cv, &set);
    if t.len() == 0 {
        let mut m = chars_of("launch agent '");
        append_str(&mut m, agent.id.as_str());
        append_str(&mut m, "' has an empty command");
        Err(string_of(&m))
    } else {
        Ok(string_of(&t))
    }
}

pub open spec fn not_found_warning(requested: Seq<char>, available: Seq<Seq<char>>) -> Seq<char> {
    "Warning: agent '"@ + requested + "' not found in settings. Available: "@ + join(available, ", "@)
        + ". Matrix created but not launched."@
}

/// The warning when a `--launch` request names no configured agent.
pub fn launch_not_found_warning(requested: &str, available_ids: &Vec<String>) -> (out: String)
    ensures
        out@ == not_found_warning(requested@, views(available_ids@)),
{
    let ids = chars_all(available_ids);
    let sep = chars_of(", ");
    let joined = join_chars(&ids, &sep);
    let mut m: Vec<char> = Vec::new();
    append_str(&mut m, "Warning: agent '");
    append_str(&mut m, requested);
    append_str(&mut m, "' not found in settings. Available: ");
    append_chars(&mut m, &joined);
    append_str(&mut m, ". Matrix created but not launched.");
    string_of(&m)
}

/// The launch verdict.
#[derive(Debug)]
pub enum LaunchOutcome {
    Pending,
    Launched { session_id: String },
    Rejected { error: String },
}

/// The launch verdict from the app's answer, if one came: a created session
/// is launched (with its id, empty when none), a rejected one rejected (with
/// its error, empty when none); with no answer yet, pending once the wait is
/// over, and none (keep waiting) before.
pub fn launch_outcome(answer: Option<SessionRequestResult>, wait_over: bool) -> (r: Option<
    LaunchOutcome,
>)
    ensures
        match answer {
            Some(a) => match a.status {
                SessionRequestResultStatus::Created => r matches Some(
                    LaunchOutcome::Launched { session_id },
                ) && session_id@ == (match a.session_id {
                    Some(s) => s@,
                    None => Seq::<char>::empty(),
                }),
                SessionRequestResultStatus::Rejected => r matches Some(
                    LaunchOutcome::Rejected { error },
                ) && error@ == (match a.error {
                    Some(e) => e@,
                    None => Seq::<char>::empty(),
                }),
            },
            None => if wait_over {
                r matches Some(LaunchOutcome::Pending)
            } else {
                r.is_none()
            },
        },
{
    match answer {
        Some(a) => match a.status {
            SessionRequestResultStatus::Created => Some(
                LaunchOutcome::Launched {
                    session_id: match a.session_id {
                        Some(s) => s,
                        None => String::new(),
                    },
                },
            ),
            SessionRequestResultStatus::Rejected => Some(
                LaunchOutcome::Rejected {
                    error: match a.error {
                        Some(e) => e,
                        None => String::new(),
                    },
                },
            ),
        },
        None => if wait_over {
            Some(LaunchOutcome::Pending)
        } else {
            None
        },
    }
}

} // verus!
