//! `self-handoff-and-switch`: the checks before a switch is requested, the
//! listing of configured coding agents with copyable commands, and the
//! daemon's acknowledgement read as an exit code.
use vstd::prelude::*;
use crate::cli::{opt_view, token_check_spec, validate_cli_token, CliFailure};
use crate::json::{json_member, json_member_of};
use crate::self_clear::{queue_ack_exit_code, queue_ack_exit_code_spec};
use crate::text::{
    append_chars, append_str, char_views, chars_of, is_ascii_alpha, is_ascii_digit, join,
    join_chars, owned, string_of, trim, trim_ws, views,
};

verus! {

broadcast use vstd::string::group_string_axioms;

/// The arguments of `self-handoff-and-switch`.
pub struct SelfSwitchArgs {
    pub token: Option<String>,
    pub root: Option<String>,
    /// Configured coding-agent id to switch to; none keeps the current one.
    pub coding_agent: Option<String>,
    /// Profile letter to switch to; none keeps the current one.
    pub profile: Option<String>,
    /// Only list the configured coding agents.
    pub list_coding_agents: bool,
    /// Seconds to wait for the daemon's acknowledgement.
    pub timeout: u64,
}

/// Exit code for the daemon's acknowledgement `content`: 0 when queued (now
/// or before), 2 otherwise.
pub fn interpret_self_switch_response_exit_code(content: &str) -> (r: i32)
    ensures
        r == queue_ack_exit_code_spec(json_member_of(content@, "status"@)),
{
    let status = json_member(content, "status");
    queue_ack_exit_code(&status)
}

/// A profile slot letter: a single ASCII letter, upper cased.
pub open spec fn profile_letter_spec(p: Seq<char>) -> Option<Seq<char>> {
    if p.len() == 1 && is_ascii_alpha(p[0]) {
        Some(seq![crate::text::ascii_upper(p[0])])
    } else {
        None
    }
}

/// `raw` as a profile slot letter, when it is a single ASCII letter.
pub fn normalize_profile_letter(raw: &str) -> (r: Option<String>)
    ensures
        opt_view(r) == profile_letter_spec(raw@),
{
    let v = chars_of(raw);
    if v.len() == 1 && (('a' <= v[0] && v[0] <= 'z') || ('A' <= v[0] && v[0] <= 'Z')) {
        let up = crate::text::ascii_upper_char(v[0]);
        let mut out: Vec<char> = Vec::new();
        out.push(up);
        assert(out@ =~= seq![crate::text::ascii_upper(v@[0])]);
        Some(string_of(&out))
    } else {
        None
    }
}

/// Error for a profile that is not a single letter.
pub const BAD_PROFILE_ERROR: &'static str = "Error: --profile must be a single letter A through Z.";

pub open spec fn profile_arg_spec(profile: Option<Seq<char>>) -> Result<Option<Seq<char>>, Seq<char>> {
    match profile {
        None => Ok(None),
        Some(p) => if p.len() == 1 && is_ascii_alpha(p[0]) {
            Ok(Some(seq![crate::text::ascii_upper(p[0])]))
        } else {
            Err(BAD_PROFILE_ERROR@)
        },
    }
}

/// The `--profile` value as a profile letter: a single ASCII letter, upper
/// cased; anything else is refused.
pub fn normalize_profile_arg(profile: Option<String>) -> (r: Result<Option<String>, String>)
    ensures
        match r {
            Ok(Some(p)) => profile_arg_spec(opt_view(profile)) == Ok::<
                Option<Seq<char>>,
                Seq<char>,
            >(Some(p@)),
            Ok(None) => profile_arg_spec(opt_view(profile)) == Ok::<Option<Seq<char>>, Seq<char>>(
                None,
            ),
            Err(e) => profile_arg_spec(opt_view(profile)) == Err::<Option<Seq<char>>, Seq<char>>(
                e@,
            ),
        },
{
    match profile {
        None => Ok(None),
        Some(value) => {
            let v = chars_of(value.as_str());
            if v.len() == 1 && (('a' <= v[0] && v[0] <= 'z') || ('A' <= v[0] && v[0] <= 'Z')) {
                let up = crate::text::ascii_upper_char(v[0]);
                let mut out: Vec<char> = Vec::new();
                out.push(up);
                assert(out@ =~= seq![crate::text::ascii_upper(v@[0])]);
                Ok(Some(string_of(&out)))
            } else {
                Err(owned(BAD_PROFILE_ERROR))
            }
        },
    }
}

/// What a switch request carries once its checks passed.
pub struct SwitchRequest {
    pub root: String,
    pub coding_agent: Option<String>,
    pub profile: Option<String>,
    /// The token is a root token.
    pub is_root: bool,
}

/// The checks before a switch is requested, in order: the root, the profile
/// letter, the token's shape. Each failure exits with code 1.
pub fn switch_request(
    args: &SelfSwitchArgs,
    root_token: &Option<String>,
    master_token: &Option<String>,
) -> (r: Result<SwitchRequest, CliFailure>)
    ensures
        match r {
            Ok(req) => {
                &&& opt_view(args.root) == Some(req.root@)
                &&& profile_arg_spec(opt_view(args.profile)) == Ok::<
                    Option<Seq<char>>,
                    Seq<char>,
                >(opt_view(req.profile))
                &&& opt_view(req.coding_agent) == opt_view(args.coding_agent)
                &&& token_check_spec(opt_view(args.token), opt_view(*root_token), opt_view(*master_token))
                    matches Ok((_, is_root)) && is_root == req.is_root
            },
            Err(f) => f.exit_code == 1 && if args.root.is_none() {
                f.message@ == "Error: --root is required."@
            } else if profile_arg_spec(opt_view(args.profile)) is Err {
                profile_arg_spec(opt_view(args.profile)) == Err::<Option<Seq<char>>, Seq<char>>(
                    f.message@,
                )
            } else {
                token_check_spec(opt_view(args.token), opt_view(*root_token), opt_view(*master_token))
                    == Err::<(Seq<char>, bool), Seq<char>>(f.message@)
            },
        },
{
    let root = match &args.root {
        Some(r) => r.clone(),
        None => {
            return Err(CliFailure { exit_code: 1, message: owned("Error: --root is required.") });
        },
    };
    let profile_copy = match &args.profile {
        Some(p) => Some(p.clone()),
        None => None,
    };
    let profile = match normalize_profile_arg(profile_copy) {
        Ok(p) => p,
        Err(msg) => {
            return Err(CliFailure { exit_code: 1, message: msg });
        },
    };
    let is_root = match validate_cli_token(&args.token, root_token, master_token) {
        Ok((_, r)) => r,
        Err(msg) => {
            return Err(CliFailure { exit_code: 1, message: msg });
        },
    };
    let coding_agent = match &args.coding_agent {
        Some(c) => Some(c.clone()),
        None => None,
    };
    Ok(SwitchRequest { root, coding_agent, profile, is_root })
}

// ---------------------------------------------------------------------------
// Copyable commands.

/// Characters an id may hold and still be pasted into a shell unquoted.
pub open spec fn shell_safe(c: char) -> bool {
    is_ascii_alpha(c) || is_ascii_digit(c) || c == '_' || c == '-' || c == '.' || c == ':' || c
        == '/' || c == '\\' || c == '@'
}

/// `s` with every single quote written as `'\''`.
pub open spec fn escape_single_quotes(s: Seq<char>) -> Seq<char>
    decreases s.len(),
{
    if s.len() == 0 {
        s
    } else {
        escape_single_quotes(s.drop_last()) + if s.last() == '\'' {
            seq!['\'', '\\', '\'', '\'']
        } else {
            seq![s.last()]
        }
    }
}

pub open spec fn single_quoted(s: Seq<char>) -> Seq<char> {
    seq!['\''] + escape_single_quotes(s) + seq!['\'']
}

/// `arg` as one POSIX shell word in single quotes.
pub fn single_quote_arg_for_copy(arg: &str) -> (out: String)
    ensures
        out@ == single_quoted(arg@),
{
    let v = chars_of(arg);
    let mut body: Vec<char> = Vec::new();
    let mut i: usize = 0;
    while i < v.len()
        invariant
            i <= v@.len(),
            body@ == escape_single_quotes(v@.take(i as int)),
        decreases v@.len() - i,
    {
        let ghost before = body@;
        let c = v[i];
        if c == '\'' {
            body.push('\'');
            body.push('\\');
            body.push('\'');
            body.push('\'');
        } else {
            body.push(c);
        }
        assert(v@.take(i + 1).drop_last() =~= v@.take(i as int));
        assert(body@ =~= escape_single_quotes(v@.take(i + 1)));
        i = i + 1;
    }
    assert(v@.take(i as int) =~= v@);
    let mut out: Vec<char> = Vec::new();
    out.push('\'');
    append_chars(&mut out, &body);
    out.push('\'');
    assert(out@ =~= single_quoted(arg@));
    string_of(&out)
}

pub open spec fn copy_id_spec(id: Seq<char>) -> Seq<char> {
    if id.len() > 0 && forall|i: int| 0 <= i < id.len() ==> shell_safe(#[trigger] id[i]) {
        id
    } else {
        single_quoted(id)
    }
}

/// A coding-agent id as it can be pasted into a shell: unchanged when every
/// char is safe there, single-quoted otherwise.
pub fn quote_coding_agent_id_for_copy(id: &str) -> (out: String)
    ensures
        out@ == copy_id_spec(id@),
{
    let v = chars_of(id);
    let mut safe = v.len() > 0;
    let mut i: usize = 0;
    while i < v.len()
        invariant
            i <= v@.len(),
            safe == (v@.len() > 0 && forall|k: int| 0 <= k < i ==> shell_safe(#[trigger] v@[k])),
        decreases v@.len() - i,
    {
        let c = v[i];
        let ok = ('a' <= c && c <= 'z') || ('A' <= c && c <= 'Z') || ('0' <= c && c <= '9') || c
            == '_' || c == '-' || c == '.' || c == ':' || c == '/' || c == '\\' || c == '@';
        safe = safe && ok;
        i = i + 1;
    }
    if safe {
        owned(id)
    } else {
        single_quote_arg_for_copy(id)
    }
}

// ---------------------------------------------------------------------------
// The coding-agent listing.

/// A configured coding agent as the listing shows it. `direct_profiles` are
/// the profile letters that resolve to themselves, without fallback.
pub struct DiscoveryAgent {
    pub id: String,
    pub label: String,
    pub command: String,
    pub direct_profiles: Vec<char>,
}

pub struct DiscoveryView {
    pub id: Seq<char>,
    pub label: Seq<char>,
    pub command: Seq<char>,
    pub direct_profiles: Seq<char>,
}

impl View for DiscoveryAgent {
    type V = DiscoveryView;

    open spec fn view(&self) -> DiscoveryView {
        DiscoveryView {
            id: self.id@,
            label: self.label@,
            command: self.command@,
            direct_profiles: self.direct_profiles@,
        }
    }
}

pub open spec fn discovery_views(v: Seq<DiscoveryAgent>) -> Seq<DiscoveryView> {
    v.map_values(|a: DiscoveryAgent| a@)
}

/// The letters listed for an agent: its direct profiles, or `A` when none.
pub open spec fn listed_letters(a: DiscoveryView) -> Seq<char> {
    if a.direct_profiles.len() == 0 {
        seq!['A']
    } else {
        a.direct_profiles
    }
}

pub open spec fn letters_text(letters: Seq<char>) -> Seq<Seq<char>> {
    letters.map_values(|c: char| seq![c])
}

pub open spec fn copy_lines(id_for_copy: Seq<char>, letters: Seq<char>) -> Seq<Seq<char>>
    decreases letters.len(),
{
    if letters.len() == 0 {
        Seq::empty()
    } else {
        copy_lines(id_for_copy, letters.drop_last()).push(
            "    self-handoff-and-switch --coding-agent="@ + id_for_copy + " --profile "@ + seq![
                letters.last(),
            ],
        )
    }
}

/// The lines of one agent's entry.
pub open spec fn agent_block(a: DiscoveryView) -> Seq<Seq<char>> {
    let letters = listed_letters(a);
    seq!["- "@ + a.id] + (if trim_ws(a.label).len() > 0 {
        seq!["  label: "@ + a.label]
    } else {
        Seq::empty()
    }) + seq![
        "  command: "@ + a.command,
        "  profiles without fallback: "@ + join(letters_text(letters), ", "@),
        "  fallback: other A-Z letters fall back to the nearest lower profile listed above, ending at A."@,
        "  copy:"@,
    ] + copy_lines(copy_id_spec(a.id), letters)
}

/// Each agent's entry followed by an empty line.
pub open spec fn agent_blocks(agents: Seq<DiscoveryView>) -> Seq<Seq<char>>
    decreases agents.len(),
{
    if agents.len() == 0 {
        Seq::empty()
    } else {
        agent_blocks(agents.drop_last()) + agent_block(agents.last()) + seq![Seq::<char>::empty()]
    }
}

pub open spec fn discovery_header() -> Seq<Seq<char>> {
    seq![
        "Configured coding agents for self-handoff-and-switch:"@,
        "Use AgentConfig.id exactly with --coding-agent. Use --profile A-Z, or omit --profile to keep the caller's current effective profile."@,
        Seq::<char>::empty(),
    ]
}

/// The listing of the configured coding agents.
pub open spec fn discovery_spec(agents: Seq<DiscoveryView>) -> Seq<char> {
    if agents.len() == 0 {
        "No configured coding agents found."@
    } else {
        join((discovery_header() + agent_blocks(agents)).drop_last(), "\n"@)
    }
}

fn push_line(lines: &mut Vec<Vec<char>>, line: Vec<char>)
    ensures
        char_views(final(lines)@) == char_views(old(lines)@).push(line@),
{
    let ghost before = char_views(lines@);
    let ghost lv = line@;
    lines.push(line);
    assert(char_views(lines@) =~= before.push(lv));
}

fn text_line(prefix: &str, tail: &[char]) -> (out: Vec<char>)
    ensures
        out@ == prefix@ + tail@,
{
    let mut v: Vec<char> = Vec::new();
    append_str(&mut v, prefix);
    append_chars(&mut v, tail);
    assert(v@ =~= prefix@ + tail@);
    v
}

fn render_agent(agent: &DiscoveryAgent, lines: &mut Vec<Vec<char>>)
    ensures
        char_views(final(lines)@) == char_views(old(lines)@) + agent_block(agent@),
{
    let ghost start = char_views(lines@);
    let ghost a = agent@;
    let mut letters: Vec<char> = Vec::new();
    if agent.direct_profiles.len() == 0 {
        letters.push('A');
        assert(letters@ =~= seq!['A']);
    } else {
        letters = crate::text::copy_chars(agent.direct_profiles.as_slice());
    }
    assert(letters@ == listed_letters(a));
    let id = chars_of(agent.id.as_str());
    push_line(lines, text_line("- ", &id));
    let label = chars_of(agent.label.as_str());
    let trimmed = trim(&label);
    let ghost after_id = char_views(lines@);
    if trimmed.len() > 0 {
        push_line(lines, text_line("  label: ", &label));
    }
    let ghost after_label = char_views(lines@);
    let command = chars_of(agent.command.as_str());
    push_line(lines, text_line("  command: ", &command));
    let mut letter_parts: Vec<Vec<char>> = Vec::new();
    let mut k: usize = 0;
    while k < letters.len()
        invariant
            k <= letters@.len(),
            char_views(letter_parts@) == letters_text(letters@).take(k as int),
        decreases letters@.len() - k,
    {
        let mut one: Vec<char> = Vec::new();
        one.push(letters[k]);
        push_line(&mut letter_parts, one);
        assert(letters_text(letters@).take(k + 1) =~= letters_text(letters@).take(k as int).push(
            seq![letters@[k as int]],
        ));
        k = k + 1;
    }
    assert(letters_text(letters@).take(k as int) =~= letters_text(letters@));
    let sep = chars_of(", ");
    let joined = join_chars(&letter_parts, &sep);
    push_line(lines, text_line("  profiles without fallback: ", &joined));
    push_line(
        lines,
        chars_of(
            "  fallback: other A-Z letters fall back to the nearest lower profile listed above, ending at A.",
        ),
    );
    push_line(lines, chars_of("  copy:"));
    let ghost before_copies = char_views(lines@);
    let quoted = quote_coding_agent_id_for_copy(agent.id.as_str());
    let qv = chars_of(quoted.as_str());
    let mut m: usize = 0;
    while m < letters.len()
        invariant
            m <= letters@.len(),
            qv@ == copy_id_spec(a.id),
            char_views(lines@) == before_copies + copy_lines(qv@, letters@.take(m as int)),
        decreases letters@.len() - m,
    {
        let mut line = text_line("    self-handoff-and-switch --coding-agent=", &qv);
        append_str(&mut line, " --profile ");
        line.push(letters[m]);
        let ghost lv = line@;
        push_line(lines, line);
        assert(letters@.take(m + 1).drop_last() =~= letters@.take(m as int));
        assert(lv =~= "    self-handoff-and-switch --coding-agent="@ + qv@ + " --profile "@ + seq![
            letters@[m as int],
        ]);
        assert(before_copies + copy_lines(qv@, letters@.take(m + 1)) =~= (before_copies
            + copy_lines(qv@, letters@.take(m as int))).push(lv));
        m = m + 1;
    }
    assert(letters@.take(m as int) =~= letters@);
    assert(char_views(lines@) =~= start + agent_block(a));
}

/// The listing of the configured coding agents (see [`discovery_spec`]).
pub fn render_coding_agent_discovery(agents: &Vec<DiscoveryAgent>) -> (out: String)
    ensures
        out@ == discovery_spec(discovery_views(agents@)),
{
    if agents.len() == 0 {
        return owned("No configured coding agents found.");
    }
    let ghost av = discovery_views(agents@);
    let mut lines: Vec<Vec<char>> = Vec::new();
    push_line(&mut lines, chars_of("Configured coding agents for self-handoff-and-switch:"));
    push_line(
        &mut lines,
        chars_of(
            "Use AgentConfig.id exactly with --coding-agent. Use --profile A-Z, or omit --profile to keep the caller's current effective profile.",
        ),
    );
    push_line(&mut lines, Vec::new());
    assert(char_views(lines@) =~= discovery_header());
    let mut i: usize = 0;
    assert(av.take(0) =~= Seq::<DiscoveryView>::empty());
    while i < agents.len()
        invariant
            i <= agents@.len(),
            av == discovery_views(agents@),
            char_views(lines@) == discovery_header() + agent_blocks(av.take(i as int)),
        decreases agents@.len() - i,
    {
        let ghost before = char_views(lines@);
        render_agent(&agents[i], &mut lines);
        push_line(&mut lines, Vec::new());
        assert(av.take(i + 1).drop_last() =~= av.take(i as int));
        assert(av.take(i + 1).last() == agents@[i as int]@);
        assert(char_views(lines@) =~= discovery_header() + agent_blocks(av.take(i + 1)));
        i = i + 1;
    }
    assert(av.take(i as int) =~= av);
    let ghost full = char_views(lines@);
    lines.pop();
    assert(char_views(lines@) =~= full.drop_last());
    let nl = chars_of("\n");
    let text = join_chars(&lines, &nl);
    string_of(&text)
}

} // verus!
