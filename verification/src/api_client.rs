//! `api-client`: who may mint, revoke and list control-plane API clients, and
//! what a mint asks for.
use vstd::prelude::*;
use crate::cli::{opt_view, token_check_spec, validate_cli_token, CliFailure};
use crate::text::{
    chars_of, char_views, non_empty, owned, split_by, split_fields, strings_of, trim, trim_ws,
    views, Sep,
};

verus! {

broadcast use vstd::string::group_string_axioms;

/// The arguments of `api-client`.
pub struct ApiClientArgs {
    pub command: ApiClientCommand,
}

/// The subcommands of `api-client`.
pub enum ApiClientCommand {
    Mint(MintArgs),
    Revoke(RevokeArgs),
    List(ListArgs),
}

/// The arguments of `api-client mint`.
pub struct MintArgs {
    /// Host authority token (master or root).
    pub token: Option<String>,
    /// Replica directory the client is bound to.
    pub root: String,
    /// Comma-separated scopes.
    pub scopes: String,
    pub label: Option<String>,
    /// RFC 3339 expiry.
    pub expires: Option<String>,
}

/// The arguments of `api-client revoke`.
pub struct RevokeArgs {
    pub token: Option<String>,
    pub client_id: String,
}

/// The arguments of `api-client list`.
pub struct ListArgs {
    pub token: Option<String>,
}

/// What `api-client` goes on to do once the caller is authorized.
pub enum ApiClientPlan {
    Mint { root: String, scopes: Vec<String>, label: String, expires: Option<String> },
    Revoke { client_id: String },
    List,
}

pub const MINT_AUTHORITY_ERROR: &'static str =
    "Error: `api-client mint` requires the master/root token (host authority). A container cannot self-mint.";

pub const REVOKE_AUTHORITY_ERROR: &'static str =
    "Error: `api-client revoke` requires the master/root token (host authority).";

pub const LIST_AUTHORITY_ERROR: &'static str =
    "Error: `api-client list` requires the master/root token (host authority).";

pub const ROOT_AGENT_MINT_ERROR: &'static str =
    "Error: cannot mint an API client bound to the Root Agent; root-agent is API-excluded in increment 1.";

/// The scopes of a `--scopes` value: its comma-separated parts, trimmed,
/// without the empty ones.
pub open spec fn scopes_spec(raw: Seq<char>) -> Seq<Seq<char>> {
    non_empty(split_by(raw, |c: char| c == ',').map_values(|p: Seq<char>| trim_ws(p)))
}

/// The scopes of a `--scopes` value (see [`scopes_spec`]).
pub fn parse_scopes(raw: &str) -> (out: Vec<String>)
    ensures
        views(out@) == scopes_spec(raw@),
{
    let v = chars_of(raw);
    let parts = split_fields(&v, &Sep::Char(','));
    proof {
        assert(crate::text::sep_pred(Sep::Char(',')) == (|c: char| c == ','));
    }
    let ghost pv = char_views(parts@);
    let mut trimmed: Vec<Vec<char>> = Vec::new();
    let mut i: usize = 0;
    while i < parts.len()
        invariant
            i <= parts@.len(),
            pv == char_views(parts@),
            char_views(trimmed@) == pv.take(i as int).map_values(|p: Seq<char>| trim_ws(p)),
        decreases parts@.len() - i,
    {
        let t = trim(&parts[i]);
        let ghost before = char_views(trimmed@);
        let ghost tv = t@;
        trimmed.push(t);
        assert(char_views(trimmed@) =~= before.push(tv));
        assert(pv.take(i + 1).map_values(|p: Seq<char>| trim_ws(p)) =~= pv.take(i as int).map_values(
            |p: Seq<char>| trim_ws(p),
        ).push(tv));
        i = i + 1;
    }
    assert(pv.take(i as int) =~= pv);
    let kept = crate::text::keep_non_empty(&trimmed);
    strings_of(&kept)
}

/// Whether `token` carries host authority: a known root token; a session
/// token passes the shape check without it.
pub open spec fn authority_spec(
    token: Option<String>,
    root_token: Option<String>,
    master_token: Option<String>,
    denied: Seq<char>,
) -> Result<(), Seq<char>> {
    match token_check_spec(opt_view(token), opt_view(root_token), opt_view(master_token)) {
        Err(e) => Err(e),
        Ok((_, true)) => Ok(()),
        Ok((_, false)) => Err(denied),
    }
}

fn host_authority(
    token: &Option<String>,
    root_token: &Option<String>,
    master_token: &Option<String>,
    denied: &str,
) -> (r: Result<(), CliFailure>)
    ensures
        match authority_spec(*token, *root_token, *master_token, denied@) {
            Ok(()) => r is Ok,
            Err(e) => r matches Err(f) && f.exit_code == 1 && f.message@ == e,
        },
{
    match validate_cli_token(token, root_token, master_token) {
        Err(e) => Err(CliFailure { exit_code: 1, message: e }),
        Ok((_, true)) => Ok(()),
        Ok((_, false)) => Err(CliFailure { exit_code: 1, message: owned(denied) }),
    }
}

/// The decisions of `api-client` before the registry is touched: every
/// subcommand needs host authority (a root token); a mint is refused when
/// its root binds the Root Agent (`root_agent_binding`, as the caller
/// determined it for the mint's root), and carries its parsed scopes, its
/// label (empty when none) and its expiry.
pub fn execute(
    args: ApiClientArgs,
    root_token: &Option<String>,
    master_token: &Option<String>,
    root_agent_binding: bool,
) -> (r: Result<ApiClientPlan, CliFailure>)
    ensures
        r matches Err(f) ==> f.exit_code == 1,
        match args.command {
            ApiClientCommand::Mint(a) => match authority_spec(
                a.token,
                *root_token,
                *master_token,
                MINT_AUTHORITY_ERROR@,
            ) {
                Err(e) => r matches Err(f) && f.message@ == e,
                Ok(()) => if root_agent_binding {
                    r matches Err(f) && f.message@ == ROOT_AGENT_MINT_ERROR@
                } else {
                    r matches Ok(ApiClientPlan::Mint { root, scopes, label, expires }) && root@
                        == a.root@ && views(scopes@) == scopes_spec(a.scopes@) && label@ == (match a.label {
                        Some(l) => l@,
                        None => Seq::<char>::empty(),
                    }) && opt_view(expires) == opt_view(a.expires)
                },
            },
            ApiClientCommand::Revoke(a) => match authority_spec(
                a.token,
                *root_token,
                *master_token,
                REVOKE_AUTHORITY_ERROR@,
            ) {
                Err(e) => r matches Err(f) && f.message@ == e,
                Ok(()) => r matches Ok(ApiClientPlan::Revoke { client_id }) && client_id@
                    == a.client_id@,
            },
            ApiClientCommand::List(a) => match authority_spec(
                a.token,
                *root_token,
                *master_token,
                LIST_AUTHORITY_ERROR@,
            ) {
                Err(e) => r matches Err(f) && f.message@ == e,
                Ok(()) => r matches Ok(ApiClientPlan::List),
            },
        },
{
    match args.command {
        ApiClientCommand::Mint(a) => {
            host_authority(&a.token, root_token, master_token, MINT_AUTHORITY_ERROR)?;
            if root_agent_binding {
                return Err(CliFailure { exit_code: 1, message: owned(ROOT_AGENT_MINT_ERROR) });
            }
            let scopes = parse_scopes(a.scopes.as_str());
            let label = match a.label {
                Some(l) => l,
                None => String::new(),
            };
            Ok(ApiClientPlan::Mint { root: a.root, scopes, label, expires: a.expires })
        },
        ApiClientCommand::Revoke(a) => {
            host_authority(&a.token, root_token, master_token, REVOKE_AUTHORITY_ERROR)?;
            Ok(ApiClientPlan::Revoke { client_id: a.client_id })
        },
        ApiClientCommand::List(a) => {
            host_authority(&a.token, root_token, master_token, LIST_AUTHORITY_ERROR)?;
            Ok(ApiClientPlan::List)
        },
    }
}

/// A session token never has host authority, whatever the subcommand.
pub proof fn lemma_session_token_is_refused(
    token: Option<String>,
    root_token: Option<String>,
    master_token: Option<String>,
    denied: Seq<char>,
)
    requires
        token_check_spec(opt_view(token), opt_view(root_token), opt_view(master_token)) matches Ok(
            (_, false),
        ),
    ensures
        authority_spec(token, root_token, master_token, denied) == Err::<(), Seq<char>>(denied),
{
}

} // verus!
