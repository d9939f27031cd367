//! `send`: the checks a message goes through before it is queued, the
//! routing verdicts, the bounded PTY input, the receipt line, and the reading
//! of the daemon's confirmation.
use vstd::prelude::*;
use vstd::utf8::{decode_utf8, valid_utf8};
use crate::cli::{opt_view, token_check_spec, validate_cli_token, CliFailure};
use crate::self_switch::{normalize_profile_letter, profile_letter_spec};
use crate::text::{append_str, chars_of, decimal, decode_utf8_text, owned, push_decimal, str_eq, string_of, trim, trim_ws};

verus! {

broadcast use vstd::string::group_string_axioms;

/// The name the Root Agent sends and is addressed as.
pub const ROOT_AGENT_SENDER: &'static str = "agentscommander://root-agent";

/// The ceiling, in bytes, of one PTY input.
pub const PTY_INPUT_MAX_BYTES: usize = 65536;

/// Why the Root Agent cannot send a logical PTY action.
pub const ROOT_AGENT_COMMAND_ERROR: &'static str =
    "Root Agent messaging is file-based; use --send with a root-to-orchestrator Markdown file, not --command";

/// Printed when `--root` is missing.
pub const SEND_ROOT_REQUIRED_ERROR: &'static str =
    "Error: --root is required. Specify your agent's root directory.";

/// The arguments of `send`.
pub struct SendArgs {
    pub token: Option<String>,
    /// Destination agent name.
    pub to: String,
    /// Filename (never a path) of a message file in the messaging directory.
    pub send: Option<String>,
    /// Delivery mode; only `wake` is accepted.
    pub mode: String,
    /// Wait for and print the agent's response.
    pub get_output: bool,
    /// Logical PTY action: `clear` or `compact`.
    pub command: Option<String>,
    /// Exact text for one coding-agent PTY, from the argument.
    pub pty_input: Option<String>,
    /// Read the exact PTY text from standard input.
    pub pty_input_stdin: bool,
    /// Coding agent for a spawned session; `auto` keeps the saved one.
    pub agent: String,
    /// Profile slot letter for the spawned session.
    pub profile: Option<String>,
    /// Seconds to wait for the `--get-output` response.
    pub timeout: u64,
    /// Seconds to wait for the delivery confirmation.
    pub confirm_timeout: u64,
    pub root: Option<String>,
    /// Outbox directory to write to instead of the agent's own.
    pub outbox: Option<String>,
}

fn failure(v: Vec<char>) -> (f: CliFailure)
    ensures
        f.exit_code == 1,
        f.message@ == v@,
{
    CliFailure { exit_code: 1, message: string_of(&v) }
}

/// The agent root, which `send` requires before anything else.
pub fn require_send_root(args: &SendArgs) -> (r: Result<String, CliFailure>)
    ensures
        match r {
            Ok(root) => args.root == Some(root),
            Err(f) => args.root is None && f.exit_code == 1 && f.message@ == SEND_ROOT_REQUIRED_ERROR@,
        },
{
    match &args.root {
        Some(r) => Ok(r.clone()),
        None => Err(CliFailure { exit_code: 1, message: owned(SEND_ROOT_REQUIRED_ERROR) }),
    }
}

/// The sender name: the reserved Root Agent name for the Root Agent's own
/// directory, otherwise `path_fqn`, the name derived from the agent root.
pub fn sender_for_root(path_fqn: &str, root_is_root_agent: bool) -> (r: String)
    ensures
        r@ == (if root_is_root_agent { ROOT_AGENT_SENDER@ } else { path_fqn@ }),
{
    if root_is_root_agent {
        owned(ROOT_AGENT_SENDER)
    } else {
        owned(path_fqn)
    }
}

/// The Root Agent sends files only: a logical PTY action from it is refused.
pub fn validate_root_agent_delivery_kind(root_is_root_agent: bool, command: Option<&str>) -> (r: Result<(), &'static str>)
    ensures
        match r {
            Ok(()) => !(root_is_root_agent && command is Some),
            Err(e) => root_is_root_agent && command is Some && e@ == ROOT_AGENT_COMMAND_ERROR@,
        },
{
    if root_is_root_agent && command.is_some() {
        Err(ROOT_AGENT_COMMAND_ERROR)
    } else {
        Ok(())
    }
}

/// What the checks before routing decide: the failure message, or whether the
/// token is a root token.
pub open spec fn send_preflight_spec(
    args: SendArgs,
    root_is_root_agent: bool,
    root_token: Option<Seq<char>>,
    master_token: Option<Seq<char>>,
) -> Result<bool, Seq<char>> {
    if root_is_root_agent && args.command is Some {
        Err("Error: "@ + ROOT_AGENT_COMMAND_ERROR@)
    } else {
        match token_check_spec(opt_view(args.token), root_token, master_token) {
            Err(e) => Err(e),
            Ok((_, is_root)) => if args.mode@ != "wake"@ {
                Err("Error: invalid mode '"@ + args.mode@ + "'. Valid: wake"@)
            } else {
                Ok(is_root)
            },
        }
    }
}

/// The checks of a file or command message before its target is resolved:
/// the Root Agent's delivery kind, the token's shape, and the mode. On
/// success, whether the token is a root token.
pub fn send_preflight(
    args: &SendArgs,
    root_is_root_agent: bool,
    root_token: &Option<String>,
    master_token: &Option<String>,
) -> (r: Result<bool, CliFailure>)
    ensures
        match r {
            Ok(is_root) => send_preflight_spec(*args, root_is_root_agent, opt_view(*root_token), opt_view(*master_token))
                == Ok::<bool, Seq<char>>(is_root),
            Err(f) => f.exit_code == 1 && send_preflight_spec(
                *args,
                root_is_root_agent,
                opt_view(*root_token),
                opt_view(*master_token),
            ) == Err::<bool, Seq<char>>(f.message@),
        },
{
    let command = match &args.command {
        Some(c) => Some(c.as_str()),
        None => None,
    };
    match validate_root_agent_delivery_kind(root_is_root_agent, command) {
        Err(reason) => {
            let mut v: Vec<char> = Vec::new();
            append_str(&mut v, "Error: ");
            append_str(&mut v, reason);
            return Err(failure(v));
        },
        Ok(()) => {},
    }
    let is_root = match validate_cli_token(&args.token, root_token, master_token) {
        Ok((_t, root)) => root,
        Err(e) => {
            return Err(CliFailure { exit_code: 1, message: e });
        },
    };
    if !str_eq(args.mode.as_str(), "wake") {
        let mut v: Vec<char> = Vec::new();
        append_str(&mut v, "Error: invalid mode '");
        append_str(&mut v, args.mode.as_str());
        append_str(&mut v, "'. Valid: wake");
        return Err(failure(v));
    }
    Ok(is_root)
}

/// Which routing check a message needs before it is queued.
#[derive(Clone, Copy, Debug, PartialEq, Eq, Structural)]
pub enum RoutingCheck {
    /// From the Root Agent: the target must be a verified Room orchestrator.
    RootAgentTarget,
    /// To the Root Agent: the sender must be a verified Room orchestrator.
    CoordinatorToRoot,
    /// Otherwise, without a root token: team membership must allow it.
    TeamMembership,
    /// A root token reaches any target.
    Unchecked,
}

pub open spec fn routing_check_spec(root_is_root_agent: bool, target_is_root_agent: bool, is_root: bool) -> RoutingCheck {
    if root_is_root_agent {
        RoutingCheck::RootAgentTarget
    } else if target_is_root_agent {
        RoutingCheck::CoordinatorToRoot
    } else if !is_root {
        RoutingCheck::TeamMembership
    } else {
        RoutingCheck::Unchecked
    }
}

/// The routing check for a sender (the Root Agent or not), a resolved target
/// (the Root Agent or not) and a token (root or not).
pub fn routing_check(root_is_root_agent: bool, target_is_root_agent: bool, is_root: bool) -> (r: RoutingCheck)
    ensures
        r == routing_check_spec(root_is_root_agent, target_is_root_agent, is_root),
{
    if root_is_root_agent {
        RoutingCheck::RootAgentTarget
    } else if target_is_root_agent {
        RoutingCheck::CoordinatorToRoot
    } else if !is_root {
        RoutingCheck::TeamMembership
    } else {
        RoutingCheck::Unchecked
    }
}

pub open spec fn routing_refusal(check: RoutingCheck, sender: Seq<char>, target: Seq<char>) -> Seq<char> {
    match check {
        RoutingCheck::RootAgentTarget => "Error: root-agent routing rejected \u{2014} '"@ + target
            + "' is not a verified Room orchestrator replica. Use list-peers-lean from the Root Agent and pass one of its name values."@,
        RoutingCheck::CoordinatorToRoot => "Error: routing rejected \u{2014} '"@ + sender
            + "' is not a verified Room orchestrator replica and cannot message '"@ + ROOT_AGENT_SENDER@
            + "'. Replies to the Root Agent are reserved for verified Room orchestrators."@,
        _ => "Error: routing rejected \u{2014} '"@ + sender + "' cannot reach '"@ + target
            + "'. Check team membership and orchestrator rules."@,
    }
}

/// The verdict of a routing check, given whether the check allowed the
/// message: nothing to refuse without a check, or when it allowed the
/// message; otherwise the refusal naming the sender or the target.
pub fn routing_verdict(check: RoutingCheck, allowed: bool, sender: &str, target: &str) -> (r: Result<(), CliFailure>)
    ensures
        match r {
            Ok(()) => check == RoutingCheck::Unchecked || allowed,
            Err(f) => check != RoutingCheck::Unchecked && !allowed && f.exit_code == 1
                && f.message@ == routing_refusal(check, sender@, target@),
        },
{
    if allowed {
        return Ok(());
    }
    let mut v: Vec<char> = Vec::new();
    match check {
        RoutingCheck::Unchecked => {
            return Ok(());
        },
        RoutingCheck::RootAgentTarget => {
            append_str(&mut v, "Error: root-agent routing rejected \u{2014} '");
            append_str(&mut v, target);
            append_str(
                &mut v,
                "' is not a verified Room orchestrator replica. Use list-peers-lean from the Root Agent and pass one of its name values.",
            );
        },
        RoutingCheck::CoordinatorToRoot => {
            append_str(&mut v, "Error: routing rejected \u{2014} '");
            append_str(&mut v, sender);
            append_str(&mut v, "' is not a verified Room orchestrator replica and cannot message '");
            append_str(&mut v, ROOT_AGENT_SENDER);
            append_str(&mut v, "'. Replies to the Root Agent are reserved for verified Room orchestrators.");
        },
        RoutingCheck::TeamMembership => {
            append_str(&mut v, "Error: routing rejected \u{2014} '");
            append_str(&mut v, sender);
            append_str(&mut v, "' cannot reach '");
            append_str(&mut v, target);
            append_str(&mut v, "'. Check team membership and orchestrator rules.");
        },
    }
    Err(failure(v))
}

/// A bare filename: not empty, not `.` or `..`, and without a path
/// separator (`/` or `\`).
pub open spec fn is_bare_filename(name: Seq<char>) -> bool {
    &&& name.len() > 0
    &&& name != "."@
    &&& name != ".."@
    &&& forall|i: int| 0 <= i < name.len() ==> name[i] != '/' && name[i] != '\\'
}

pub open spec fn filename_refusal(name: Seq<char>) -> Seq<char> {
    "--send takes a filename only, never a path: '"@ + name + "'"@
}

/// `--send` names a file in the messaging directory by its bare name.
pub fn validate_filename_only(name: &str) -> (r: Result<(), String>)
    ensures
        match r {
            Ok(()) => is_bare_filename(name@),
            Err(e) => !is_bare_filename(name@) && e@ == filename_refusal(name@),
        },
{
    let v = chars_of(name);
    let mut ok = v.len() > 0 && !str_eq(name, ".") && !str_eq(name, "..");
    let mut i: usize = 0;
    while i < v.len()
        invariant
            i <= v@.len(),
            v@ == name@,
            ok == (v@.len() > 0 && v@ != "."@ && v@ != ".."@ && forall|j: int|
                0 <= j < i ==> v@[j] != '/' && v@[j] != '\\'),
        decreases v@.len() - i,
    {
        if v[i] == '/' || v[i] == '\\' {
            ok = false;
        }
        i = i + 1;
    }
    if ok {
        Ok(())
    } else {
        let mut e: Vec<char> = Vec::new();
        append_str(&mut e, "--send takes a filename only, never a path: '");
        append_str(&mut e, name);
        append_str(&mut e, "'");
        Err(string_of(&e))
    }
}

pub open spec fn payload_flags_spec(send: Option<Seq<char>>, command_given: bool) -> Result<(), Seq<char>> {
    if send is Some && command_given {
        Err("Error: --send and --command are mutually exclusive"@)
    } else {
        match send {
            Some(name) => if is_bare_filename(name) {
                Ok(())
            } else {
                Err("Error: "@ + filename_refusal(name))
            },
            None => Ok(()),
        }
    }
}

/// `--send` and `--command` exclude each other, and `--send` must be a bare
/// filename.
pub fn check_payload_flags(args: &SendArgs) -> (r: Result<(), CliFailure>)
    ensures
        match r {
            Ok(()) => payload_flags_spec(opt_view(args.send), args.command is Some) == Ok::<(), Seq<char>>(()),
            Err(f) => f.exit_code == 1 && payload_flags_spec(opt_view(args.send), args.command is Some)
                == Err::<(), Seq<char>>(f.message@),
        },
{
    if args.send.is_some() && args.command.is_some() {
        return Err(CliFailure { exit_code: 1, message: owned("Error: --send and --command are mutually exclusive") });
    }
    match &args.send {
        Some(name) => match validate_filename_only(name.as_str()) {
            Ok(()) => Ok(()),
            Err(e) => {
                let mut v: Vec<char> = Vec::new();
                append_str(&mut v, "Error: ");
                append_str(&mut v, e.as_str());
                Err(failure(v))
            },
        },
        None => Ok(()),
    }
}

pub open spec fn command_and_profile_spec(
    command: Option<Seq<char>>,
    profile: Option<Seq<char>>,
    body_is_empty: bool,
) -> Result<Option<Seq<char>>, Seq<char>> {
    if body_is_empty && command is None {
        Err("Error: --send or --command is required"@)
    } else if command is Some && command->0 != "clear"@ && command->0 != "compact"@ {
        Err("Error: unsupported command '"@ + command->0 + "'. Allowed: clear, compact"@)
    } else {
        match profile {
            None => Ok(None),
            Some(raw) => match profile_letter_spec(raw) {
                Some(letter) => Ok(Some(letter)),
                None => Err("Error: --profile must be a single letter A through Z"@),
            },
        }
    }
}

/// Once the message body is known: a body or a command is required, the
/// command must be `clear` or `compact`, and the profile must be a letter.
/// On success, the requested profile letter, upper cased.
pub fn check_command_and_profile(args: &SendArgs, body_is_empty: bool) -> (r: Result<Option<String>, CliFailure>)
    ensures
        match r {
            Ok(p) => command_and_profile_spec(opt_view(args.command), opt_view(args.profile), body_is_empty)
                == Ok::<Option<Seq<char>>, Seq<char>>(opt_view(p)),
            Err(f) => f.exit_code == 1 && command_and_profile_spec(
                opt_view(args.command),
                opt_view(args.profile),
                body_is_empty,
            ) == Err::<Option<Seq<char>>, Seq<char>>(f.message@),
        },
{
    if body_is_empty && args.command.is_none() {
        return Err(CliFailure { exit_code: 1, message: owned("Error: --send or --command is required") });
    }
    match &args.command {
        Some(c) => {
            if !str_eq(c.as_str(), "clear") && !str_eq(c.as_str(), "compact") {
                let mut v: Vec<char> = Vec::new();
                append_str(&mut v, "Error: unsupported command '");
                append_str(&mut v, c.as_str());
                append_str(&mut v, "'. Allowed: clear, compact");
                return Err(failure(v));
            }
        },
        None => {},
    }
    match &args.profile {
        None => Ok(None),
        Some(raw) => match normalize_profile_letter(raw.as_str()) {
            Some(letter) => Ok(Some(letter)),
            None => Err(CliFailure { exit_code: 1, message: owned("Error: --profile must be a single letter A through Z") }),
        },
    }
}

/// The outbox a message is written to: `--outbox` when given; for a root
/// token the application's outbox when it names a directory; otherwise the
/// agent's own outbox.
pub fn choose_outbox_dir(
    outbox_flag: &Option<String>,
    is_root: bool,
    app_outbox_dir: &Option<String>,
    local_outbox: &str,
) -> (r: String)
    ensures
        r@ == (match outbox_flag {
            Some(o) => o@,
            None => if is_root && app_outbox_dir is Some {
                app_outbox_dir->0@
            } else {
                local_outbox@
            },
        }),
{
    match outbox_flag {
        Some(o) => o.clone(),
        None => {
            if is_root {
                match app_outbox_dir {
                    Some(p) => {
                        return p.clone();
                    },
                    None => {},
                }
            }
            owned(local_outbox)
        },
    }
}

/// The known project paths with the project that holds the agent root added,
/// unless it is already there, by its text or (`canonical_match`) by the
/// directory it names.
pub fn with_root_project(paths: Vec<String>, root_project: Option<String>, canonical_match: bool) -> (out: Vec<String>)
    ensures
        out@ == (match root_project {
            Some(p) => if canonical_match || exists|i: int| 0 <= i < paths@.len() && #[trigger] paths@[i]@ == p@ {
                paths@
            } else {
                paths@.push(p)
            },
            None => paths@,
        }),
{
    match root_project {
        None => paths,
        Some(p) => {
            let mut present = canonical_match;
            let mut i: usize = 0;
            while i < paths.len()
                invariant
                    i <= paths@.len(),
                    present == (canonical_match || exists|j: int| 0 <= j < i && #[trigger] paths@[j]@ == p@),
                decreases paths@.len() - i,
            {
                if str_eq(paths[i].as_str(), p.as_str()) {
                    present = true;
                }
                i = i + 1;
            }
            if present {
                paths
            } else {
                let mut out = paths;
                out.push(p);
                out
            }
        },
    }
}

/// Why the daemon refused a PTY input, or could not settle it.
#[derive(Clone, Copy, Debug, PartialEq, Eq, Structural)]
pub enum PtyInputReasonCode {
    InvalidEnvelope,
    MixedPayload,
    UnsupportedVersion,
    InvalidEnterMode,
    InvalidId,
    InvalidNonce,
    InvalidTimestamp,
    Expired,
    InvalidTarget,
    InvalidText,
    PayloadTooLarge,
    IdempotencyConflict,
    CapacityExceeded,
    SessionTokenRequired,
    InvalidSessionToken,
    AmbiguousSessionToken,
    SenderSessionNotLive,
    SenderBackendNotLocal,
    SenderIdentityInvalid,
    SenderNotCoordinator,
    RootIdentityInvalid,
    TargetNotMember,
    TargetIsCoordinator,
    TargetOutOfScope,
    UnsafePath,
    ApiScopeRequired,
    ApiClientUnbound,
    ApiClientStale,
    ApiBindingMismatch,
    AuthorityChanged,
    Busy,
    ResizeUnsettled,
    UntrackedReadiness,
    UnsupportedSession,
    NonpersistentLiveSession,
    InconsistentSession,
    UnsupportedProfile,
    ReadinessTimeout,
    StoreCorrupt,
    RestoreInProgress,
    PurgeInProgress,
    SessionRace,
    LeaseLost,
    SpawnFailedSafe,
    StoreTransient,
    FinalRevalidationFailed,
    TextWriteFailed,
    RequiredEnterFailed,
    DaemonRestartAfterActuation,
    RuntimeActuationOrphan,
    TerminalStoreFailed,
    RedundantEnterFailed,
    BoundaryMetadataFailed,
    ArtifactUnclaimed,
}

/// The wire name of each reason code.
pub open spec fn reason_code_text(code: PtyInputReasonCode) -> Seq<char> {
    match code {
        PtyInputReasonCode::InvalidEnvelope => "invalid_envelope"@,
        PtyInputReasonCode::MixedPayload => "mixed_payload"@,
        PtyInputReasonCode::UnsupportedVersion => "unsupported_version"@,
        PtyInputReasonCode::InvalidEnterMode => "invalid_enter_mode"@,
        PtyInputReasonCode::InvalidId => "invalid_id"@,
        PtyInputReasonCode::InvalidNonce => "invalid_nonce"@,
        PtyInputReasonCode::InvalidTimestamp => "invalid_timestamp"@,
        PtyInputReasonCode::Expired => "expired"@,
        PtyInputReasonCode::InvalidTarget => "invalid_target"@,
        PtyInputReasonCode::InvalidText => "invalid_text"@,
        PtyInputReasonCode::PayloadTooLarge => "payload_too_large"@,
        PtyInputReasonCode::IdempotencyConflict => "idempotency_conflict"@,
        PtyInputReasonCode::CapacityExceeded => "capacity_exceeded"@,
        PtyInputReasonCode::SessionTokenRequired => "session_token_required"@,
        PtyInputReasonCode::InvalidSessionToken => "invalid_session_token"@,
        PtyInputReasonCode::AmbiguousSessionToken => "ambiguous_session_token"@,
        PtyInputReasonCode::SenderSessionNotLive => "sender_session_not_live"@,
        PtyInputReasonCode::SenderBackendNotLocal => "sender_backend_not_local"@,
        PtyInputReasonCode::SenderIdentityInvalid => "sender_identity_invalid"@,
        PtyInputReasonCode::SenderNotCoordinator => "sender_not_coordinator"@,
        PtyInputReasonCode::RootIdentityInvalid => "root_identity_invalid"@,
        PtyInputReasonCode::TargetNotMember => "target_not_member"@,
        PtyInputReasonCode::TargetIsCoordinator => "target_is_coordinator"@,
        PtyInputReasonCode::TargetOutOfScope => "target_out_of_scope"@,
        PtyInputReasonCode::UnsafePath => "unsafe_path"@,
        PtyInputReasonCode::ApiScopeRequired => "api_scope_required"@,
        PtyInputReasonCode::ApiClientUnbound => "api_client_unbound"@,
        PtyInputReasonCode::ApiClientStale => "api_client_stale"@,
        PtyInputReasonCode::ApiBindingMismatch => "api_binding_mismatch"@,
        PtyInputReasonCode::AuthorityChanged => "authority_changed"@,
        PtyInputReasonCode::Busy => "busy"@,
        PtyInputReasonCode::ResizeUnsettled => "resize_unsettled"@,
        PtyInputReasonCode::UntrackedReadiness => "untracked_readiness"@,
        PtyInputReasonCode::UnsupportedSession => "unsupported_session"@,
        PtyInputReasonCode::NonpersistentLiveSession => "nonpersistent_live_session"@,
        PtyInputReasonCode::InconsistentSession => "inconsistent_session"@,
        PtyInputReasonCode::UnsupportedProfile => "unsupported_profile"@,
        PtyInputReasonCode::ReadinessTimeout => "readiness_timeout"@,
        PtyInputReasonCode::StoreCorrupt => "store_corrupt"@,
        PtyInputReasonCode::RestoreInProgress => "restore_in_progress"@,
        PtyInputReasonCode::PurgeInProgress => "purge_in_progress"@,
        PtyInputReasonCode::SessionRace => "session_race"@,
        PtyInputReasonCode::LeaseLost => "lease_lost"@,
        PtyInputReasonCode::SpawnFailedSafe => "spawn_failed_safe"@,
        PtyInputReasonCode::StoreTransient => "store_transient"@,
        PtyInputReasonCode::FinalRevalidationFailed => "final_revalidation_failed"@,
        PtyInputReasonCode::TextWriteFailed => "text_write_failed"@,
        PtyInputReasonCode::RequiredEnterFailed => "required_enter_failed"@,
        PtyInputReasonCode::DaemonRestartAfterActuation => "daemon_restart_after_actuation"@,
        PtyInputReasonCode::RuntimeActuationOrphan => "runtime_actuation_orphan"@,
        PtyInputReasonCode::TerminalStoreFailed => "terminal_store_failed"@,
        PtyInputReasonCode::RedundantEnterFailed => "redundant_enter_failed"@,
        PtyInputReasonCode::BoundaryMetadataFailed => "boundary_metadata_failed"@,
        PtyInputReasonCode::ArtifactUnclaimed => "artifact_unclaimed"@,
    }
}

/// The wire name of a reason code, as the command line reports it.
pub fn reason_code_for_cli(code: PtyInputReasonCode) -> (r: &'static str)
    ensures
        r@ == reason_code_text(code),
{
    match code {
        PtyInputReasonCode::InvalidEnvelope => "invalid_envelope",
        PtyInputReasonCode::MixedPayload => "mixed_payload",
        PtyInputReasonCode::UnsupportedVersion => "unsupported_version",
        PtyInputReasonCode::InvalidEnterMode => "invalid_enter_mode",
        PtyInputReasonCode::InvalidId => "invalid_id",
        PtyInputReasonCode::InvalidNonce => "invalid_nonce",
        PtyInputReasonCode::InvalidTimestamp => "invalid_timestamp",
        PtyInputReasonCode::Expired => "expired",
        PtyInputReasonCode::InvalidTarget => "invalid_target",
        PtyInputReasonCode::InvalidText => "invalid_text",
        PtyInputReasonCode::PayloadTooLarge => "payload_too_large",
        PtyInputReasonCode::IdempotencyConflict => "idempotency_conflict",
        PtyInputReasonCode::CapacityExceeded => "capacity_exceeded",
        PtyInputReasonCode::SessionTokenRequired => "session_token_required",
        PtyInputReasonCode::InvalidSessionToken => "invalid_session_token",
        PtyInputReasonCode::AmbiguousSessionToken => "ambiguous_session_token",
        PtyInputReasonCode::SenderSessionNotLive => "sender_session_not_live",
        PtyInputReasonCode::SenderBackendNotLocal => "sender_backend_not_local",
        PtyInputReasonCode::SenderIdentityInvalid => "sender_identity_invalid",
        PtyInputReasonCode::SenderNotCoordinator => "sender_not_coordinator",
        PtyInputReasonCode::RootIdentityInvalid => "root_identity_invalid",
        PtyInputReasonCode::TargetNotMember => "target_not_member",
        PtyInputReasonCode::TargetIsCoordinator => "target_is_coordinator",
        PtyInputReasonCode::TargetOutOfScope => "target_out_of_scope",
        PtyInputReasonCode::UnsafePath => "unsafe_path",
        PtyInputReasonCode::ApiScopeRequired => "api_scope_required",
        PtyInputReasonCode::ApiClientUnbound => "api_client_unbound",
        PtyInputReasonCode::ApiClientStale => "api_client_stale",
        PtyInputReasonCode::ApiBindingMismatch => "api_binding_mismatch",
        PtyInputReasonCode::AuthorityChanged => "authority_changed",
        PtyInputReasonCode::Busy => "busy",
        PtyInputReasonCode::ResizeUnsettled => "resize_unsettled",
        PtyInputReasonCode::UntrackedReadiness => "untracked_readiness",
        PtyInputReasonCode::UnsupportedSession => "unsupported_session",
        PtyInputReasonCode::NonpersistentLiveSession => "nonpersistent_live_session",
        PtyInputReasonCode::InconsistentSession => "inconsistent_session",
        PtyInputReasonCode::UnsupportedProfile => "unsupported_profile",
        PtyInputReasonCode::ReadinessTimeout => "readiness_timeout",
        PtyInputReasonCode::StoreCorrupt => "store_corrupt",
        PtyInputReasonCode::RestoreInProgress => "restore_in_progress",
        PtyInputReasonCode::PurgeInProgress => "purge_in_progress",
        PtyInputReasonCode::SessionRace => "session_race",
        PtyInputReasonCode::LeaseLost => "lease_lost",
        PtyInputReasonCode::SpawnFailedSafe => "spawn_failed_safe",
        PtyInputReasonCode::StoreTransient => "store_transient",
        PtyInputReasonCode::FinalRevalidationFailed => "final_revalidation_failed",
        PtyInputReasonCode::TextWriteFailed => "text_write_failed",
        PtyInputReasonCode::RequiredEnterFailed => "required_enter_failed",
        PtyInputReasonCode::DaemonRestartAfterActuation => "daemon_restart_after_actuation",
        PtyInputReasonCode::RuntimeActuationOrphan => "runtime_actuation_orphan",
        PtyInputReasonCode::TerminalStoreFailed => "terminal_store_failed",
        PtyInputReasonCode::RedundantEnterFailed => "redundant_enter_failed",
        PtyInputReasonCode::BoundaryMetadataFailed => "boundary_metadata_failed",
        PtyInputReasonCode::ArtifactUnclaimed => "artifact_unclaimed",
    }
}
pub open spec fn queued_receipt_spec(msg_id: Seq<char>, agent: Seq<char>, profile: Option<Seq<char>>) -> Seq<char> {
    if agent != "auto"@ || profile is Some {
        "Queued: "@ + msg_id + " (agent="@ + agent + (match profile {
            Some(letter) => ", profile="@ + letter,
            None => Seq::empty(),
        }) + ")"@
    } else {
        "Queued: "@ + msg_id
    }
}

/// The enqueue receipt: `Queued: <id>`, followed by the requested agent and
/// profile in brackets when either was asked for. The id stays the first
/// token in both forms.
pub fn queued_receipt_line(msg_id: &str, agent_for_ack: &str, requested_profile: &Option<String>) -> (out: String)
    ensures
        out@ == queued_receipt_spec(msg_id@, agent_for_ack@, opt_view(*requested_profile)),
{
    let mut v: Vec<char> = Vec::new();
    append_str(&mut v, "Queued: ");
    append_str(&mut v, msg_id);
    if !str_eq(agent_for_ack, "auto") || requested_profile.is_some() {
        append_str(&mut v, " (agent=");
        append_str(&mut v, agent_for_ack);
        match requested_profile {
            Some(letter) => {
                append_str(&mut v, ", profile=");
                append_str(&mut v, letter.as_str());
            },
            None => {},
        }
        append_str(&mut v, ")");
    }
    string_of(&v)
}

/// PTY input read from standard input, at most one byte over the ceiling:
/// refused as too large over the ceiling, as invalid text unless it is
/// UTF-8, and otherwise the text it encodes.
pub fn bounded_pty_text(bytes: Vec<u8>) -> (r: Result<String, &'static str>)
    ensures
        match r {
            Ok(s) => bytes@.len() <= PTY_INPUT_MAX_BYTES && valid_utf8(bytes@) && s@ == decode_utf8(bytes@),
            Err(code) => if bytes@.len() > PTY_INPUT_MAX_BYTES {
                code@ == "payload_too_large"@
            } else {
                !valid_utf8(bytes@) && code@ == "invalid_text"@
            },
        },
{
    if bytes.len() > PTY_INPUT_MAX_BYTES {
        return Err("payload_too_large");
    }
    match decode_utf8_text(bytes) {
        Ok(s) => Ok(s),
        Err(_) => Err("invalid_text"),
    }
}

pub open spec fn pty_payload_spec(args: SendArgs) -> bool {
    args.mode@ == "wake"@ && !args.get_output && args.outbox is None
}

/// The checks of a PTY input before it is published: no other delivery flag
/// (`wake` mode only, no `--get-output`, no `--outbox`), and a session token,
/// never a root one. On success, the token.
pub fn pty_preflight(args: &SendArgs, root_token: &Option<String>, master_token: &Option<String>) -> (r: Result<
    String,
    CliFailure,
>)
    ensures
        match r {
            Ok(t) => pty_payload_spec(*args) && token_check_spec(
                opt_view(args.token),
                opt_view(*root_token),
                opt_view(*master_token),
            ) == Ok::<(Seq<char>, bool), Seq<char>>((t@, false)),
            Err(f) => f.exit_code == 1 && if !pty_payload_spec(*args) {
                f.message@ == "Error: mixed_payload"@
            } else {
                match token_check_spec(opt_view(args.token), opt_view(*root_token), opt_view(*master_token)) {
                    Err(e) => f.message@ == e,
                    Ok((_, is_root)) => is_root && f.message@ == "Error: session_token_required"@,
                }
            },
        },
{
    if !str_eq(args.mode.as_str(), "wake") || args.get_output || args.outbox.is_some() {
        return Err(CliFailure { exit_code: 1, message: owned("Error: mixed_payload") });
    }
    match validate_cli_token(&args.token, root_token, master_token) {
        Err(e) => Err(CliFailure { exit_code: 1, message: e }),
        Ok((t, is_root)) => {
            if is_root {
                Err(CliFailure { exit_code: 1, message: owned("Error: session_token_required") })
            } else {
                Ok(t)
            }
        },
    }
}

/// The agent requested for a PTY input: none for `auto`.
pub fn requested_pty_agent(agent: &str) -> (r: Option<String>)
    ensures
        opt_view(r) == (if agent@ == "auto"@ { None } else { Some(agent@) }),
{
    if str_eq(agent, "auto") {
        None
    } else {
        Some(owned(agent))
    }
}

/// The status a PTY input artifact reports.
#[derive(Clone, Copy, Debug, PartialEq, Eq, Structural)]
pub enum PtyInputPublicStatus {
    Injected,
    Rejected,
    Indeterminate,
    /// Any status that is not terminal.
    Pending,
}

/// A line the command line prints, with its exit code.
pub struct CliReport {
    pub exit_code: i32,
    /// Printed on standard output rather than standard error.
    pub to_stdout: bool,
    pub line: String,
}

pub open spec fn reason_or(reason: Option<PtyInputReasonCode>, fallback: Seq<char>) -> Seq<char> {
    match reason {
        Some(code) => reason_code_text(code),
        None => fallback,
    }
}

pub open spec fn pty_report_spec(
    outcome: Result<(PtyInputPublicStatus, Option<PtyInputReasonCode>), Seq<char>>,
    id: Seq<char>,
) -> (i32, bool, Seq<char>) {
    match outcome {
        Ok((PtyInputPublicStatus::Injected, _)) => (0, true, "Injected: "@ + id),
        Ok((PtyInputPublicStatus::Rejected, reason)) => (
            1,
            false,
            "Rejected: "@ + id + " code="@ + reason_or(reason, "invalid_envelope"@),
        ),
        Ok((PtyInputPublicStatus::Indeterminate, reason)) => (
            1,
            false,
            "Indeterminate: "@ + id + " code="@ + reason_or(reason, "terminal_store_failed"@) + "; do not resubmit"@,
        ),
        Ok((PtyInputPublicStatus::Pending, _)) => (1, false, "Indeterminate: "@ + id + " code=invalid_artifact"@),
        Err(code) => if code == "confirmation_timeout"@ {
            (
                1,
                false,
                "Confirmation timeout: operation "@ + id
                    + " remains queued or actuating; do not resubmit under a new ID. Inspect its delivered, rejected, and indeterminate artifacts."@,
            )
        } else {
            (1, false, "Indeterminate: "@ + id + " code="@ + code + "; do not resubmit"@)
        },
    }
}

fn push_reason(v: &mut Vec<char>, reason: Option<PtyInputReasonCode>, fallback: &str)
    ensures
        final(v)@ == old(v)@ + reason_or(reason, fallback@),
{
    match reason {
        Some(code) => append_str(v, reason_code_for_cli(code)),
        None => append_str(v, fallback),
    }
}

/// The last line of a PTY input: what its terminal artifact says, or why
/// waiting for one ended (`confirmation_timeout` or another failure code).
pub fn pty_confirmation_report(
    outcome: &Result<(PtyInputPublicStatus, Option<PtyInputReasonCode>), String>,
    injection_id: &str,
) -> (r: CliReport)
    ensures
        (r.exit_code, r.to_stdout, r.line@) == pty_report_spec(
            match outcome {
                Ok(x) => Ok(*x),
                Err(code) => Err(code@),
            },
            injection_id@,
        ),
{
    let mut v: Vec<char> = Vec::new();
    match outcome {
        Ok((PtyInputPublicStatus::Injected, _)) => {
            append_str(&mut v, "Injected: ");
            append_str(&mut v, injection_id);
            CliReport { exit_code: 0, to_stdout: true, line: string_of(&v) }
        },
        Ok((PtyInputPublicStatus::Rejected, reason)) => {
            append_str(&mut v, "Rejected: ");
            append_str(&mut v, injection_id);
            append_str(&mut v, " code=");
            push_reason(&mut v, *reason, "invalid_envelope");
            CliReport { exit_code: 1, to_stdout: false, line: string_of(&v) }
        },
        Ok((PtyInputPublicStatus::Indeterminate, reason)) => {
            append_str(&mut v, "Indeterminate: ");
            append_str(&mut v, injection_id);
            append_str(&mut v, " code=");
            push_reason(&mut v, *reason, "terminal_store_failed");
            append_str(&mut v, "; do not resubmit");
            CliReport { exit_code: 1, to_stdout: false, line: string_of(&v) }
        },
        Ok((PtyInputPublicStatus::Pending, _)) => {
            append_str(&mut v, "Indeterminate: ");
            append_str(&mut v, injection_id);
            append_str(&mut v, " code=invalid_artifact");
            CliReport { exit_code: 1, to_stdout: false, line: string_of(&v) }
        },
        Err(code) => {
            if str_eq(code.as_str(), "confirmation_timeout") {
                append_str(&mut v, "Confirmation timeout: operation ");
                append_str(&mut v, injection_id);
                append_str(
                    &mut v,
                    " remains queued or actuating; do not resubmit under a new ID. Inspect its delivered, rejected, and indeterminate artifacts.",
                );
            } else {
                append_str(&mut v, "Indeterminate: ");
                append_str(&mut v, injection_id);
                append_str(&mut v, " code=");
                append_str(&mut v, code.as_str());
                append_str(&mut v, "; do not resubmit");
            }
            CliReport { exit_code: 1, to_stdout: false, line: string_of(&v) }
        },
    }
}

/// What one look at the outbox found about a rejection.
pub enum RejectionNote {
    /// No rejection reason file.
    Absent,
    /// A reason file that could not be read.
    Unreadable,
    /// The reason file's text.
    Reason(String),
}

/// One step of the wait for the delivery confirmation.
pub enum ConfirmStep {
    /// Delivered, with the line to print.
    Delivered(String),
    /// Refused or timed out, with the error.
    Failed(String),
    /// Look again after the poll interval.
    Wait,
}

pub open spec fn confirm_step_spec(
    delivered: bool,
    rejection: RejectionNote,
    timed_out: bool,
    msg_id: Seq<char>,
    mode: Seq<char>,
    to: Seq<char>,
    timeout_secs: nat,
    outbox: Seq<char>,
) -> (int, Seq<char>) {
    if delivered {
        (0, "Delivered: "@ + msg_id + " (mode="@ + mode + ", to="@ + to + ")"@)
    } else {
        match rejection {
            RejectionNote::Unreadable => (1, "message rejected: unknown reason"@),
            RejectionNote::Reason(text) => (1, "message rejected: "@ + trim_ws(text@)),
            RejectionNote::Absent => if timed_out {
                (
                    1,
                    "delivery confirmation timeout after "@ + decimal(timeout_secs) + "s (message "@ + msg_id
                        + " may still be pending in "@ + outbox + ")"@,
                )
            } else {
                (2, Seq::empty())
            },
        }
    }
}

pub open spec fn confirm_step_view(s: ConfirmStep) -> (int, Seq<char>) {
    match s {
        ConfirmStep::Delivered(line) => (0, line@),
        ConfirmStep::Failed(e) => (1, e@),
        ConfirmStep::Wait => (2, Seq::empty()),
    }
}

/// One look at the outbox while waiting for the delivery confirmation: the
/// delivered record wins, then a rejection reason (its text trimmed), then
/// the timeout; otherwise wait.
pub fn delivery_confirmation_step(
    delivered: bool,
    rejection: &RejectionNote,
    timed_out: bool,
    msg_id: &str,
    mode: &str,
    to: &str,
    timeout_secs: u64,
    outbox: &str,
) -> (r: ConfirmStep)
    ensures
        confirm_step_view(r) == confirm_step_spec(
            delivered,
            *rejection,
            timed_out,
            msg_id@,
            mode@,
            to@,
            timeout_secs as nat,
            outbox@,
        ),
{
    let mut v: Vec<char> = Vec::new();
    if delivered {
        append_str(&mut v, "Delivered: ");
        append_str(&mut v, msg_id);
        append_str(&mut v, " (mode=");
        append_str(&mut v, mode);
        append_str(&mut v, ", to=");
        append_str(&mut v, to);
        append_str(&mut v, ")");
        return ConfirmStep::Delivered(string_of(&v));
    }
    match rejection {
        RejectionNote::Unreadable => ConfirmStep::Failed(owned("message rejected: unknown reason")),
        RejectionNote::Reason(text) => {
            append_str(&mut v, "message rejected: ");
            let t = trim(&chars_of(text.as_str()));
            let mut i: usize = 0;
            let ghost start = v@;
            while i < t.len()
                invariant
                    i <= t@.len(),
                    v@ == start + t@.take(i as int),
                decreases t@.len() - i,
            {
                v.push(t[i]);
                assert(t@.take(i + 1) =~= t@.take(i as int).push(t@[i as int]));
                i = i + 1;
            }
            assert(t@.take(i as int) =~= t@);
            ConfirmStep::Failed(string_of(&v))
        },
        RejectionNote::Absent => {
            if timed_out {
                append_str(&mut v, "delivery confirmation timeout after ");
                push_decimal(&mut v, timeout_secs);
                append_str(&mut v, "s (message ");
                append_str(&mut v, msg_id);
                append_str(&mut v, " may still be pending in ");
                append_str(&mut v, outbox);
                append_str(&mut v, ")");
                ConfirmStep::Failed(string_of(&v))
            } else {
                ConfirmStep::Wait
            }
        },
    }
}

/// One step of the wait for a `--get-output` response.
pub enum ResponseStep {
    /// The response file is there: read it.
    Read,
    /// No response within the timeout, with the error.
    TimedOut(String),
    /// Look again after the poll interval.
    Wait,
}

/// One look for the response file: present wins over the timeout, so a
/// response that lands in the last window (or with a zero timeout) is read.
pub fn response_wait_step(exists: bool, timed_out: bool, timeout_secs: u64) -> (r: ResponseStep)
    ensures
        exists ==> r is Read,
        !exists && timed_out ==> (r matches ResponseStep::TimedOut(e) && e@ == "timeout waiting for response after "@
            + decimal(timeout_secs as nat) + "s"@),
        !exists && !timed_out ==> r is Wait,
{
    if exists {
        ResponseStep::Read
    } else if timed_out {
        let mut v: Vec<char> = Vec::new();
        append_str(&mut v, "timeout waiting for response after ");
        push_decimal(&mut v, timeout_secs);
        append_str(&mut v, "s");
        ResponseStep::TimedOut(string_of(&v))
    } else {
        ResponseStep::Wait
    }
}

// ---------------------------------------------------------------------------
// The PTY length clamp of a file notification.

/// Length of a request id (a hyphenated UUID).
pub const REQUEST_ID_LEN: usize = 36;

/// The sizes of the notification framing the app puts around a message
/// body: the fixed part of the wrap, the fixed part of the `--get-output`
/// response markers, and the longest text that is safe to inject.
pub struct PtyFraming {
    pub wrap_fixed: usize,
    pub response_marker_fixed: usize,
    pub safe_max: usize,
}

/// The bytes a notification adds around its body: the wrap plus the sender
/// name, and with `get_output` also the response markers with two request
/// ids.
pub open spec fn overhead_spec(f: PtyFraming, sender_len: nat, get_output: bool) -> nat {
    (f.wrap_fixed + sender_len + if get_output {
        f.response_marker_fixed + 2 * REQUEST_ID_LEN
    } else {
        0int
    }) as nat
}

/// The bytes a notification adds around its body (see [`overhead_spec`]).
pub fn notification_pty_overhead(f: &PtyFraming, sender_len: usize, get_output: bool) -> (r: usize)
    requires
        f.wrap_fixed + sender_len + f.response_marker_fixed + 2 * REQUEST_ID_LEN <= usize::MAX,
    ensures
        r == overhead_spec(*f, sender_len as nat, get_output),
{
    let mut overhead = f.wrap_fixed + sender_len;
    if get_output {
        overhead = overhead + f.response_marker_fixed + 2 * REQUEST_ID_LEN;
    }
    overhead
}

/// The clamp on a file notification: the body of `body_len` bytes with the
/// plain wrap of a sender name of `sender_len` bytes must fit the safe
/// maximum. The live wake path never injects the response markers, so a
/// `--get-output` send is budgeted as a plain one. Refused with the sizes
/// named otherwise.
pub fn notification_clamp(f: &PtyFraming, body_len: usize, sender_len: usize) -> (r: Result<(), String>)
    requires
        f.wrap_fixed + sender_len + f.response_marker_fixed + 2 * REQUEST_ID_LEN <= usize::MAX,
    ensures
        r is Ok <==> body_len + overhead_spec(*f, sender_len as nat, false) <= f.safe_max,
        r matches Err(m) ==> m@ == "Error: notification exceeds PTY-safe length (body "@ + decimal(body_len as nat)
            + " + overhead "@ + decimal(overhead_spec(*f, sender_len as nat, false)) + " > "@ + decimal(
            f.safe_max as nat,
        ) + "). Shorten slug or move room to a shallower path."@,
{
    let overhead = notification_pty_overhead(f, sender_len, false);
    if overhead <= f.safe_max && body_len <= f.safe_max - overhead {
        Ok(())
    } else {
        let mut m = chars_of("Error: notification exceeds PTY-safe length (body ");
        push_decimal(&mut m, body_len as u64);
        append_str(&mut m, " + overhead ");
        push_decimal(&mut m, overhead as u64);
        append_str(&mut m, " > ");
        push_decimal(&mut m, f.safe_max as u64);
        append_str(&mut m, "). Shorten slug or move room to a shallower path.");
        Err(string_of(&m))
    }
}


/// `clear` and `compact` are the logical commands a send accepts: with
/// either and no profile the check passes, with or without a body; any
/// other command is refused as unsupported.
pub proof fn lemma_allowed_commands(command: Seq<char>, body_is_empty: bool)
    ensures
        command == "clear"@ || command == "compact"@ ==> command_and_profile_spec(Some(command), None, body_is_empty)
            == Ok::<Option<Seq<char>>, Seq<char>>(None),
        command != "clear"@ && command != "compact"@ ==> command_and_profile_spec(
            Some(command),
            None,
            body_is_empty,
        ) == Err::<Option<Seq<char>>, Seq<char>>(
            "Error: unsupported command '"@ + command + "'. Allowed: clear, compact"@,
        ),
{
}

} // verus!
