//! `create-agent-matrix`: what an Agent Matrix creation is asked for.
use vstd::prelude::*;
use crate::coding_agent::AgentConfig;
use crate::create_agent::{
    find_launch_agent, launch_agent_index, launch_not_found_warning, not_found_warning, opt_view,
    MatrixCreateRequest,
};
use crate::text::{append_str, string_of, views};

verus! {

/// The arguments of `create-agent-matrix`.
pub struct CreateAgentMatrixArgs {
    pub project: String,
    pub name: String,
    pub description: String,
    pub role_template: Option<String>,
    pub launch: Option<String>,
    pub root: Option<String>,
    pub token: Option<String>,
}

/// A request to refresh a project in the sidebar.
pub struct ProjectRefreshRequest {
    pub id: String,
    pub project_path: String,
    pub changed_path: Option<String>,
    pub changed_name: Option<String>,
    pub reason: String,
    pub timestamp: String,
}

/// The creation `create-agent-matrix` asks for: its arguments as given.
pub fn execute(args: CreateAgentMatrixArgs) -> (r: MatrixCreateRequest)
    ensures
        r.project@ == args.project@,
        r.name@ == args.name@,
        r.description@ == args.description@,
        opt_view(r.role_template) == opt_view(args.role_template),
        opt_view(r.launch) == opt_view(args.launch),
{
    MatrixCreateRequest {
        project: args.project,
        name: args.name,
        description: args.description,
        role_template: args.role_template,
        launch: args.launch,
    }
}

/// What `create-agent-matrix` prints once the matrix is on disk.
pub struct CreateAgentMatrixResult {
    pub agent_path: String,
    pub agent_name: String,
    pub role_path: String,
    pub launched: bool,
    pub launch_agent: Option<String>,
}

/// The agent a `--launch` request asks to start in the new matrix, among the
/// configured `agents` (see [`find_launch_agent`]); none without a request.
pub fn matrix_launch_agent<'a>(agents: &'a Vec<AgentConfig>, launch: Option<&str>) -> (r: Option<&'a AgentConfig>)
    ensures
        match launch {
            None => r is None,
            Some(req) => match r {
                Some(a) => launch_agent_index(agents@, req@) >= 0 && *a == agents@[launch_agent_index(
                    agents@,
                    req@,
                )],
                None => launch_agent_index(agents@, req@) == -1,
            },
        },
{
    match launch {
        None => None,
        Some(req) => find_launch_agent(agents, req),
    }
}

/// The result of a created matrix at `agent_path` (named `agent_name`, role
/// at `role_path`): launched exactly when an agent was found for the launch
/// (`found`) and its session request was built and written
/// (`request_written`); the launched agent's id then, none otherwise.
pub fn matrix_create_result(
    agent_path: String,
    agent_name: String,
    role_path: String,
    found: Option<&AgentConfig>,
    request_written: bool,
) -> (r: CreateAgentMatrixResult)
    ensures
        r.agent_path == agent_path && r.agent_name == agent_name && r.role_path == role_path,
        r.launched == (found is Some && request_written),
        opt_view(r.launch_agent) == (if r.launched {
            Some(found->0.id@)
        } else {
            None::<Seq<char>>
        }),
{
    let (launched, launch_agent) = match found {
        Some(a) => if request_written {
            (true, Some(a.id.clone()))
        } else {
            (false, None)
        },
        None => (false, None),
    };
    CreateAgentMatrixResult { agent_path, agent_name, role_path, launched, launch_agent }
}

/// The warning a launch that did not happen gives: an unknown agent names
/// the configured ones (`available_ids`); a request that could not be built
/// or written gives its error. A launch that was asked for and requested,
/// or none asked for, gives none. Either way the matrix stays created.
pub fn matrix_launch_warning(
    launch: Option<&str>,
    found: Option<&AgentConfig>,
    available_ids: &Vec<String>,
    request_error: Option<&str>,
) -> (r: Option<String>)
    ensures
        match launch {
            None => r is None,
            Some(req) => match found {
                None => r is Some && r->0@ == not_found_warning(req@, views(available_ids@)),
                Some(_) => match request_error {
                    Some(e) => r is Some && r->0@
                        == "Warning: agent matrix created but failed to request launch: "@ + e@,
                    None => r is None,
                },
            },
        },
{
    match launch {
        None => None,
        Some(req) => match found {
            None => Some(launch_not_found_warning(req, available_ids)),
            Some(_) => match request_error {
                Some(e) => {
                    let mut m: Vec<char> = Vec::new();
                    append_str(&mut m, "Warning: agent matrix created but failed to request launch: ");
                    append_str(&mut m, e);
                    Some(string_of(&m))
                },
                None => None,
            },
        },
    }
}

/// The exit code once the matrix is created: 0 when the result could be
/// printed, 1 otherwise. A launch that did not happen never changes it.
pub fn matrix_create_exit_code(result_printed: bool) -> (r: i32)
    ensures
        r == (if result_printed { 0i32 } else { 1i32 }),
{
    if result_printed {
        0
    } else {
        1
    }
}

} // verus!
