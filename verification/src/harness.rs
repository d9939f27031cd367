//! The command-policy harness: which commands are allowed, warned about or
//! denied, how a command is shown in the audit log, and how secrets in it are
//! redacted.
use vstd::prelude::*;
use crate::text::{
    append_chars, append_str, char_views, chars_of, contains_exec, contains_str, contains_sub,
    copy_chars, ends_with, ends_with_str, eq_str, has_char, in_set, lower_seq, owned, seq_eq,
    split_by, split_fields, split_words, starts_with, starts_with_str, string_of, to_ascii_lower,
    trim, trim_by, trim_set, trim_ws, views, words, ws_or, Sep, before_char, split_once_char,
    clone_strings, join, join_chars, chars_all, trim_ws_bounds, slice_range, occurs_at,
    strip_prefix_all, strip_prefix_all_exec,
};

verus! {

broadcast use vstd::string::group_string_axioms;

/// Longest command text (in chars) that the audit log keeps.
pub const MAX_LOGGED_COMMAND_LEN: usize = 512;

/// The arguments of the `harness` verb.
pub struct HarnessArgs {
    /// Explain the policy decision without executing the command.
    pub explain: bool,
    /// Evaluate policy and simulate execution without modifying state.
    pub dry_run: bool,
    /// Command to execute, as argv.
    pub command: Vec<String>,
    /// Optional literal command executed through the platform shell.
    pub raw_command: Option<String>,
}

/// Outcome of the policy check.
pub enum PolicyDecision {
    Allow,
    Warn(Vec<String>),
    Deny(Vec<String>),
}

/// Spec-level view of a [`PolicyDecision`].
pub enum DecisionView {
    Allow,
    Warn(Seq<Seq<char>>),
    Deny(Seq<Seq<char>>),
}

impl View for PolicyDecision {
    type V = DecisionView;

    open spec fn view(&self) -> DecisionView {
        match self {
            PolicyDecision::Allow => DecisionView::Allow,
            PolicyDecision::Warn(r) => DecisionView::Warn(views(r@)),
            PolicyDecision::Deny(r) => DecisionView::Deny(views(r@)),
        }
    }
}

/// What the policy looks at.
pub struct PolicyInput {
    pub raw_display: String,
    pub argv: Vec<String>,
    pub raw_shell: bool,
}

/// How the command will run.
pub enum ExecutionMode {
    Argv(Vec<String>),
    Raw(String),
}

// ---------------------------------------------------------------------------
// Specification.

pub open spec fn dq_set() -> Seq<char> {
    seq!['"']
}

pub open spec fn sq_set() -> Seq<char> {
    seq!['\'']
}

/// `value.trim().trim_matches('"').trim_matches('\'').to_ascii_lowercase()`.
pub open spec fn normalize_token_spec(v: Seq<char>) -> Seq<char> {
    lower_seq(trim_by(trim_by(trim_ws(v), in_set(dq_set())), in_set(sq_set())))
}

/// Chars stripped from both ends of a token before it is compared with a root.
pub open spec fn root_trim_set() -> Seq<char> {
    seq!['"', '\'', ';', '&', '|', '(', ')']
}

/// Chars besides whitespace that break a raw command into words.
pub open spec fn word_breaks() -> Seq<char> {
    seq![';', '&', '|', '(', ')']
}

/// Whether a (lower-cased) token names a filesystem root.
pub open spec fn is_root_target_spec(token: Seq<char>) -> bool {
    let t = trim_by(token, in_set(root_trim_set()));
    t == "/"@ || t == "\\"@ || t == "c:\\"@ || t == "c:/"@ || t == "%systemdrive%\\"@
}

/// Words of a raw command: fields between whitespace and `; & | ( )`.
pub open spec fn raw_words(raw: Seq<char>) -> Seq<Seq<char>> {
    split_by(raw, ws_or(word_breaks()))
}

pub open spec fn raw_contains_root_target_spec(raw: Seq<char>) -> bool {
    ||| exists|i: int| 0 <= i < raw_words(raw).len() && is_root_target_spec(raw_words(raw)[i])
    ||| contains_sub(raw, " / "@)
    ||| contains_sub(raw, " '/'"@)
    ||| contains_sub(raw, " \"/\""@)
    ||| contains_sub(raw, " c:\\"@)
    ||| contains_sub(raw, " c:/"@)
}

/// Some word of `raw` is `needle` or `needle.exe`.
pub open spec fn contains_command_word_spec(raw: Seq<char>, needle: Seq<char>) -> bool {
    exists|i: int|
        0 <= i < raw_words(raw).len() && (raw_words(raw)[i] == needle || raw_words(raw)[i]
            == needle + ".exe"@)
}

pub open spec fn has_token_spec(tokens: Seq<Seq<char>>, needle: Seq<char>) -> bool {
    exists|i: int| 0 <= i < tokens.len() && tokens[i] == needle
}

pub open spec fn any_root_target(tokens: Seq<Seq<char>>) -> bool {
    exists|i: int| 0 <= i < tokens.len() && is_root_target_spec(tokens[i])
}

pub open spec fn has_rm_recursive_force_spec(tokens: Seq<Seq<char>>) -> bool {
    has_token_spec(tokens, "-rf"@) || has_token_spec(tokens, "-fr"@) || (has_token_spec(
        tokens,
        "-r"@,
    ) && has_token_spec(tokens, "-f"@))
}

pub open spec fn is_nested_shell_cmd(cmd: Seq<char>) -> bool {
    cmd == "bash"@ || cmd == "sh"@ || cmd == "powershell"@ || cmd == "pwsh"@ || cmd == "cmd"@
        || cmd == "cmd.exe"@
}

pub open spec fn nested_shell_msg(cmd: Seq<char>) -> Seq<char> {
    "nested shell invocation detected: "@ + cmd
}

pub open spec fn nested_shell_warnings(cmd: Seq<char>) -> Seq<Seq<char>> {
    if is_nested_shell_cmd(cmd) {
        seq![nested_shell_msg(cmd)]
    } else {
        Seq::empty()
    }
}

/// The branch a `git checkout -b B` / `git branch B` command names.
pub open spec fn branch_of(tokens: Seq<Seq<char>>) -> Option<Seq<char>> {
    if tokens.len() >= 4 && tokens[0] == "git"@ && tokens[1] == "checkout"@ && tokens[2]
        == "-b"@ {
        Some(tokens[3])
    } else if tokens.len() >= 3 && tokens[0] == "git"@ && tokens[1] == "branch"@ {
        Some(tokens[2])
    } else {
        None
    }
}

pub open spec fn has_allowed_branch_prefix(b: Seq<char>) -> bool {
    ||| starts_with(b, "feat/"@)
    ||| starts_with(b, "fix/"@)
    ||| starts_with(b, "chore/"@)
    ||| starts_with(b, "docs/"@)
    ||| starts_with(b, "test/"@)
    ||| starts_with(b, "refactor/"@)
    ||| starts_with(b, "hotfix/"@)
}

pub open spec fn is_reasonable_branch_name_spec(b: Seq<char>) -> bool {
    &&& has_allowed_branch_prefix(b)
    &&& !b.contains(' ')
    &&& !b.contains('\\')
    &&& !contains_sub(b, ".."@)
    &&& !starts_with(b, "/"@)
    &&& !ends_with(b, "/"@)
}

pub open spec fn branch_msg(b: Seq<char>) -> Seq<char> {
    "branch name may violate conventions: "@ + b
}

pub open spec fn branch_warnings(tokens: Seq<Seq<char>>) -> Seq<Seq<char>> {
    match branch_of(tokens) {
        Some(b) => if is_reasonable_branch_name_spec(b) {
            Seq::empty()
        } else {
            seq![branch_msg(b)]
        },
        None => Seq::empty(),
    }
}

pub open spec fn when(cond: bool, msg: Seq<char>) -> Seq<Seq<char>> {
    if cond {
        seq![msg]
    } else {
        Seq::empty()
    }
}

pub open spec fn normalized(argv: Seq<Seq<char>>) -> Seq<Seq<char>> {
    argv.map_values(|a: Seq<char>| normalize_token_spec(a))
}

/// Warnings the argv policy raises for normalized `tokens`.
pub open spec fn argv_warnings(tokens: Seq<Seq<char>>) -> Seq<Seq<char>> {
    if tokens.len() == 0 {
        Seq::empty()
    } else {
        nested_shell_warnings(tokens[0]) + branch_warnings(tokens)
    }
}

/// Denials the argv policy raises for normalized `tokens`.
pub open spec fn argv_denials(tokens: Seq<Seq<char>>) -> Seq<Seq<char>> {
    if tokens.len() == 0 {
        Seq::empty()
    } else {
        let cmd = tokens[0];
        let root = any_root_target(tokens);
        when(
            cmd == "rm"@ && has_rm_recursive_force_spec(tokens) && root,
            "denied destructive root removal"@,
        ) + when(
            cmd == "remove-item"@ && (has_token_spec(tokens, "-recurse"@) || has_token_spec(
                tokens,
                "-r"@,
            )) && (has_token_spec(tokens, "-force"@) || has_token_spec(tokens, "-fo"@)) && root,
            "denied destructive Remove-Item root removal"@,
        ) + when(
            (cmd == "rd"@ || cmd == "rmdir"@) && has_token_spec(tokens, "/s"@) && has_token_spec(
                tokens,
                "/q"@,
            ) && root,
            "denied destructive recursive directory removal"@,
        ) + when(
            cmd == "del"@ && has_token_spec(tokens, "/s"@) && has_token_spec(tokens, "/q"@)
                && root,
            "denied destructive recursive file deletion"@,
        )
    }
}

pub open spec fn shell_warning(raw: Seq<char>, shell: Seq<char>) -> Seq<Seq<char>> {
    when(contains_command_word_spec(raw, shell), nested_shell_msg(shell))
}

/// Warnings the raw-shell policy raises for the normalized command `raw`.
pub open spec fn raw_warnings(raw: Seq<char>) -> Seq<Seq<char>> {
    shell_warning(raw, "bash"@) + shell_warning(raw, "sh"@) + shell_warning(raw, "powershell"@)
        + shell_warning(raw, "pwsh"@) + shell_warning(raw, "cmd"@) + if contains_sub(
        raw,
        "git checkout -b"@,
    ) || contains_sub(raw, "git branch"@) {
        branch_warnings(words(raw))
    } else {
        Seq::empty()
    }
}

pub open spec fn raw_is_destructive(raw: Seq<char>) -> bool {
    let root = raw_contains_root_target_spec(raw);
    ||| contains_sub(raw, "rm -rf"@) && root
    ||| contains_sub(raw, "remove-item"@) && contains_sub(raw, "-recurse"@) && contains_sub(
        raw,
        "-force"@,
    ) && root
    ||| (contains_sub(raw, "rd /s /q"@) || contains_sub(raw, "rmdir /s /q"@)) && root
    ||| contains_sub(raw, "del /s /q"@) && root
}

pub open spec fn raw_is_chained(raw: Seq<char>) -> bool {
    raw.contains(';') || contains_sub(raw, "&&"@) || contains_sub(raw, "||"@)
}

/// Denials the raw-shell policy raises for the normalized command `raw`.
pub open spec fn raw_denials(raw: Seq<char>) -> Seq<Seq<char>> {
    if raw_is_destructive(raw) {
        if raw_is_chained(raw) {
            seq!["denied destructive command in raw shell chain"@]
        } else {
            seq!["denied destructive raw shell command"@]
        }
    } else {
        Seq::empty()
    }
}

pub open spec fn decision_of(warnings: Seq<Seq<char>>, denials: Seq<Seq<char>>) -> DecisionView {
    if denials.len() == 0 {
        if warnings.len() == 0 {
            DecisionView::Allow
        } else {
            DecisionView::Warn(warnings)
        }
    } else {
        DecisionView::Deny(denials)
    }
}

/// The decision the policy reaches for an input.
pub open spec fn policy_spec(raw_display: Seq<char>, argv: Seq<Seq<char>>, raw_shell: bool) -> DecisionView {
    if raw_shell {
        let raw = normalize_token_spec(raw_display);
        decision_of(raw_warnings(raw), raw_denials(raw))
    } else {
        let tokens = normalized(argv);
        decision_of(argv_warnings(tokens), argv_denials(tokens))
    }
}

// ---------------------------------------------------------------------------
// Implementation.

/// `value.trim().trim_matches('"').trim_matches('\'').to_ascii_lowercase()`.
pub fn normalize_token(value: &[char]) -> (out: Vec<char>)
    ensures
        out@ == normalize_token_spec(value@),
{
    let t = trim(value);
    let dq = chars_of("\"");
    let sq = chars_of("'");
    proof {
        reveal_strlit("\"");
        reveal_strlit("'");
        assert(dq@ =~= dq_set());
        assert(sq@ =~= sq_set());
    }
    let t = trim_set(&t, &dq);
    let t = trim_set(&t, &sq);
    to_ascii_lower(&t)
}

fn root_trim_chars() -> (v: Vec<char>)
    ensures
        v@ == root_trim_set(),
{
    let mut v: Vec<char> = Vec::new();
    v.push('"');
    v.push('\'');
    v.push(';');
    v.push('&');
    v.push('|');
    v.push('(');
    v.push(')');
    assert(v@ =~= root_trim_set());
    v
}

fn word_break_chars() -> (v: Vec<char>)
    ensures
        v@ == word_breaks(),
{
    let mut v: Vec<char> = Vec::new();
    v.push(';');
    v.push('&');
    v.push('|');
    v.push('(');
    v.push(')');
    assert(v@ =~= word_breaks());
    v
}

/// Whether a token names a filesystem root.
pub fn is_root_target(token: &[char]) -> (r: bool)
    ensures
        r == is_root_target_spec(token@),
{
    let set = root_trim_chars();
    let t = trim_set(token, &set);
    eq_str(&t, "/") || eq_str(&t, "\\") || eq_str(&t, "c:\\") || eq_str(&t, "c:/") || eq_str(
        &t,
        "%systemdrive%\\",
    )
}

/// The words of a raw command line.
pub fn raw_word_list(raw: &[char]) -> (out: Vec<Vec<char>>)
    ensures
        char_views(out@) == raw_words(raw@),
{
    let sep = Sep::WhitespaceOr(word_break_chars());
    split_fields(raw, &sep)
}

/// Whether a raw command mentions a filesystem root.
pub fn raw_contains_root_target(raw: &[char]) -> (r: bool)
    ensures
        r == raw_contains_root_target_spec(raw@),
{
    let ws = raw_word_list(raw);
    let mut i: usize = 0;
    while i < ws.len()
        invariant
            i <= ws@.len(),
            char_views(ws@) == raw_words(raw@),
            forall|k: int| 0 <= k < i ==> !is_root_target_spec(raw_words(raw@)[k]),
        decreases ws@.len() - i,
    {
        if is_root_target(&ws[i]) {
            assert(raw_words(raw@)[i as int] == ws@[i as int]@);
            return true;
        }
        i = i + 1;
    }
    contains_str(raw, " / ") || contains_str(raw, " '/'") || contains_str(raw, " \"/\"")
        || contains_str(raw, " c:\\") || contains_str(raw, " c:/")
}

/// Whether some word of `raw` is `needle` or `needle.exe`.
pub fn contains_command_word(raw: &[char], needle: &[char]) -> (r: bool)
    ensures
        r == contains_command_word_spec(raw@, needle@),
{
    let ws = raw_word_list(raw);
    let mut with_exe = copy_chars(needle);
    append_str(&mut with_exe, ".exe");
    let mut i: usize = 0;
    while i < ws.len()
        invariant
            i <= ws@.len(),
            char_views(ws@) == raw_words(raw@),
            with_exe@ == needle@ + ".exe"@,
            forall|k: int|
                0 <= k < i ==> !(raw_words(raw@)[k] == needle@ || raw_words(raw@)[k] == needle@
                    + ".exe"@),
        decreases ws@.len() - i,
    {
        assert(raw_words(raw@)[i as int] == ws@[i as int]@);
        if seq_eq(&ws[i], needle) || seq_eq(&ws[i], &with_exe) {
            return true;
        }
        i = i + 1;
    }
    false
}

/// Whether some token equals `needle`.
pub fn has_token(tokens: &Vec<Vec<char>>, needle: &str) -> (r: bool)
    ensures
        r == has_token_spec(char_views(tokens@), needle@),
{
    let mut i: usize = 0;
    while i < tokens.len()
        invariant
            i <= tokens@.len(),
            forall|k: int| 0 <= k < i ==> tokens@[k]@ != needle@,
        decreases tokens@.len() - i,
    {
        if eq_str(&tokens[i], needle) {
            assert(char_views(tokens@)[i as int] == needle@);
            return true;
        }
        i = i + 1;
    }
    false
}

/// Whether some token equals one of `a` or `b`.
pub fn has_any_token(tokens: &Vec<Vec<char>>, a: &str, b: &str) -> (r: bool)
    ensures
        r == (has_token_spec(char_views(tokens@), a@) || has_token_spec(char_views(tokens@), b@)),
{
    has_token(tokens, a) || has_token(tokens, b)
}

/// `-rf`, `-fr`, or both `-r` and `-f`.
pub fn has_rm_recursive_force(tokens: &Vec<Vec<char>>) -> (r: bool)
    ensures
        r == has_rm_recursive_force_spec(char_views(tokens@)),
{
    has_any_token(tokens, "-rf", "-fr") || (has_token(tokens, "-r") && has_token(tokens, "-f"))
}

fn any_root(tokens: &Vec<Vec<char>>) -> (r: bool)
    ensures
        r == any_root_target(char_views(tokens@)),
{
    let mut i: usize = 0;
    while i < tokens.len()
        invariant
            i <= tokens@.len(),
            forall|k: int| 0 <= k < i ==> !is_root_target_spec(tokens@[k]@),
        decreases tokens@.len() - i,
    {
        if is_root_target(&tokens[i]) {
            assert(char_views(tokens@)[i as int] == tokens@[i as int]@);
            return true;
        }
        i = i + 1;
    }
    false
}

/// `prefix` followed by `tail`, as a `String`.
pub fn message(prefix: &str, tail: &[char]) -> (out: String)
    ensures
        out@ == prefix@ + tail@,
{
    let mut v = chars_of(prefix);
    append_chars(&mut v, tail);
    string_of(&v)
}

/// Pushes a nested-shell warning when `cmd` is a shell.
pub fn warn_nested_shell(cmd: &[char], warnings: &mut Vec<String>)
    ensures
        views(final(warnings)@) == views(old(warnings)@) + nested_shell_warnings(cmd@),
{
    let ghost before = warnings@;
    if eq_str(cmd, "bash") || eq_str(cmd, "sh") || eq_str(cmd, "powershell") || eq_str(cmd, "pwsh")
        || eq_str(cmd, "cmd") || eq_str(cmd, "cmd.exe") {
        let m = message("nested shell invocation detected: ", cmd);
        warnings.push(m);
        assert(views(warnings@) =~= views(before).push(m@));
    } else {
        assert(views(warnings@) =~= views(before));
    }
}

/// Whether a branch name follows the naming conventions.
pub fn is_reasonable_branch_name(b: &[char]) -> (r: bool)
    ensures
        r == is_reasonable_branch_name_spec(b@),
{
    let prefixed = starts_with_str(b, "feat/") || starts_with_str(b, "fix/") || starts_with_str(
        b,
        "chore/",
    ) || starts_with_str(b, "docs/") || starts_with_str(b, "test/") || starts_with_str(
        b,
        "refactor/",
    ) || starts_with_str(b, "hotfix/");
    prefixed && !has_char(b, ' ') && !has_char(b, '\\') && !contains_str(b, "..")
        && !starts_with_str(b, "/") && !ends_with_str(b, "/")
}

/// Pushes a warning when the command creates a branch with an unusual name.
pub fn warn_branch_name(tokens: &Vec<Vec<char>>, warnings: &mut Vec<String>)
    ensures
        views(final(warnings)@) == views(old(warnings)@) + branch_warnings(char_views(tokens@)),
{
    let ghost tv = char_views(tokens@);
    let ghost before = warnings@;
    let n = tokens.len();
    let idx: Option<usize> = if n >= 4 && eq_str(&tokens[0], "git") && eq_str(&tokens[1], "checkout")
        && eq_str(&tokens[2], "-b") {
        Some(3)
    } else if n >= 3 && eq_str(&tokens[0], "git") && eq_str(&tokens[1], "branch") {
        Some(2)
    } else {
        None
    };
    proof {
        assert(tv.len() == n);
        if n >= 4 {
            assert(tv[0] == tokens@[0]@ && tv[1] == tokens@[1]@ && tv[2] == tokens@[2]@ && tv[3]
                == tokens@[3]@);
        }
        if n >= 3 {
            assert(tv[0] == tokens@[0]@ && tv[1] == tokens@[1]@ && tv[2] == tokens@[2]@);
        }
    }
    match idx {
        Some(k) => {
            assert(branch_of(tv) == Some(tokens@[k as int]@));
            if !is_reasonable_branch_name(&tokens[k]) {
                let m = message("branch name may violate conventions: ", &tokens[k]);
                warnings.push(m);
                assert(views(warnings@) =~= views(before).push(m@));
            } else {
                assert(views(warnings@) =~= views(before));
            }
        },
        None => {
            assert(branch_of(tv) is None);
            assert(views(warnings@) =~= views(before));
        },
    }
}

/// Pushes `reason` when `cond` holds.
fn push_if(cond: bool, reason: &str, out: &mut Vec<String>)
    ensures
        views(final(out)@) == views(old(out)@) + when(cond, reason@),
{
    let ghost before = out@;
    if cond {
        let r = owned(reason);
        out.push(r);
        assert(views(out@) =~= views(before).push(r@));
    } else {
        assert(views(out@) =~= views(before));
    }
}

/// The normalized form of every argument.
pub fn normalize_all(argv: &Vec<String>) -> (out: Vec<Vec<char>>)
    ensures
        char_views(out@) == normalized(views(argv@)),
{
    let mut out: Vec<Vec<char>> = Vec::new();
    let mut i: usize = 0;
    while i < argv.len()
        invariant
            i <= argv@.len(),
            out@.len() == i,
            forall|k: int| 0 <= k < i ==> out@[k]@ == normalize_token_spec(argv@[k]@),
        decreases argv@.len() - i,
    {
        let c = chars_of(argv[i].as_str());
        out.push(normalize_token(&c));
        i = i + 1;
    }
    assert(char_views(out@) =~= normalized(views(argv@)));
    out
}

/// Appends the warnings and denials of the argv policy.
pub fn evaluate_argv_policy(
    input: &PolicyInput,
    warnings: &mut Vec<String>,
    denials: &mut Vec<String>,
)
    ensures
        views(final(warnings)@) == views(old(warnings)@) + argv_warnings(
            normalized(views(input.argv@)),
        ),
        views(final(denials)@) == views(old(denials)@) + argv_denials(normalized(views(input.argv@))),
{
    let tokens = normalize_all(&input.argv);
    let ghost tv = char_views(tokens@);
    let ghost w0 = views(warnings@);
    let ghost d0 = views(denials@);
    if tokens.len() == 0 {
        assert(w0 + argv_warnings(tv) =~= w0);
        assert(d0 + argv_denials(tv) =~= d0);
        return;
    }
    assert(tv[0] == tokens@[0]@);
    warn_nested_shell(&tokens[0], warnings);
    warn_branch_name(&tokens, warnings);
    assert(views(warnings@) =~= w0 + argv_warnings(tv));

    let cmd = &tokens[0];
    let root = any_root(&tokens);
    let c1 = eq_str(cmd, "rm") && has_rm_recursive_force(&tokens) && root;
    push_if(c1, "denied destructive root removal", denials);
    let c2 = eq_str(cmd, "remove-item") && has_any_token(&tokens, "-recurse", "-r")
        && has_any_token(&tokens, "-force", "-fo") && root;
    push_if(c2, "denied destructive Remove-Item root removal", denials);
    let c3 = (eq_str(cmd, "rd") || eq_str(cmd, "rmdir")) && has_token(&tokens, "/s") && has_token(
        &tokens,
        "/q",
    ) && root;
    push_if(c3, "denied destructive recursive directory removal", denials);
    let c4 = eq_str(cmd, "del") && has_token(&tokens, "/s") && has_token(&tokens, "/q") && root;
    push_if(c4, "denied destructive recursive file deletion", denials);
    assert(views(denials@) =~= d0 + argv_denials(tv));
}

/// Appends the warnings and denials of the raw-shell policy.
#[verifier::spinoff_prover]
#[verifier::rlimit(40)]
pub fn evaluate_raw_policy(
    input: &PolicyInput,
    warnings: &mut Vec<String>,
    denials: &mut Vec<String>,
)
    ensures
        views(final(warnings)@) == views(old(warnings)@) + raw_warnings(
            normalize_token_spec(input.raw_display@),
        ),
        views(final(denials)@) == views(old(denials)@) + raw_denials(
            normalize_token_spec(input.raw_display@),
        ),
{
    let display = chars_of(input.raw_display.as_str());
    let raw = normalize_token(&display);
    let ghost r = raw@;
    let ghost w0 = views(warnings@);
    let ghost d0 = views(denials@);

    warn_shell_word(&raw, "bash", warnings);
    warn_shell_word(&raw, "sh", warnings);
    warn_shell_word(&raw, "powershell", warnings);
    warn_shell_word(&raw, "pwsh", warnings);
    warn_shell_word(&raw, "cmd", warnings);
    let ghost w_shell = views(warnings@);
    if contains_str(&raw, "git checkout -b") || contains_str(&raw, "git branch") {
        let ws = split_words(&raw);
        warn_branch_name(&ws, warnings);
    }
    assert(views(warnings@) =~= w0 + raw_warnings(r));

    raw_denial(&raw, denials);
}

/// Pushes the denial that a destructive raw command earns.
fn raw_denial(raw: &Vec<char>, denials: &mut Vec<String>)
    ensures
        views(final(denials)@) == views(old(denials)@) + raw_denials(raw@),
{
    let ghost d0 = views(denials@);
    let chained = has_char(raw, ';') || contains_str(raw, "&&") || contains_str(raw, "||");
    let root = raw_contains_root_target(raw);
    let destructive = (contains_str(raw, "rm -rf") && root) || (contains_str(raw, "remove-item")
        && contains_str(raw, "-recurse") && contains_str(raw, "-force") && root) || ((
    contains_str(raw, "rd /s /q") || contains_str(raw, "rmdir /s /q")) && root) || (contains_str(
        raw,
        "del /s /q",
    ) && root);
    if destructive {
        let reason = if chained {
            "denied destructive command in raw shell chain"
        } else {
            "denied destructive raw shell command"
        };
        push_if(true, reason, denials);
        assert(views(denials@) =~= d0 + raw_denials(raw@));
    } else {
        assert(views(denials@) =~= d0 + raw_denials(raw@));
    }
}

/// Pushes a nested-shell warning when `shell` is a word of `raw`.
fn warn_shell_word(raw: &Vec<char>, shell: &str, warnings: &mut Vec<String>)
    ensures
        views(final(warnings)@) == views(old(warnings)@) + shell_warning(raw@, shell@),
{
    let ghost before = warnings@;
    let s = chars_of(shell);
    if contains_command_word(raw, &s) {
        let m = message("nested shell invocation detected: ", &s);
        warnings.push(m);
        assert(views(warnings@) =~= views(before).push(m@));
    } else {
        assert(views(warnings@) =~= views(before));
    }
}

/// The policy decision for `input`.
pub fn evaluate_policy(input: &PolicyInput) -> (d: PolicyDecision)
    ensures
        d@ == policy_spec(input.raw_display@, views(input.argv@), input.raw_shell),
{
    let mut warnings: Vec<String> = Vec::new();
    let mut denials: Vec<String> = Vec::new();
    if input.raw_shell {
        evaluate_raw_policy(input, &mut warnings, &mut denials);
    } else {
        evaluate_argv_policy(input, &mut warnings, &mut denials);
    }
    assert(views(Seq::<String>::empty()) =~= Seq::<Seq<char>>::empty());
    if denials.len() == 0 {
        if warnings.len() == 0 {
            PolicyDecision::Allow
        } else {
            PolicyDecision::Warn(warnings)
        }
    } else {
        PolicyDecision::Deny(denials)
    }
}

// ---------------------------------------------------------------------------
// Execution mode.

/// Spec-level view of an [`ExecutionMode`].
pub enum ModeView {
    Argv(Seq<Seq<char>>),
    Raw(Seq<char>),
}

impl View for ExecutionMode {
    type V = ModeView;

    open spec fn view(&self) -> ModeView {
        match self {
            ExecutionMode::Argv(a) => ModeView::Argv(views(a@)),
            ExecutionMode::Raw(r) => ModeView::Raw(r@),
        }
    }
}

/// How `harness` will run, or why the arguments are unusable.
pub open spec fn parse_mode_spec(raw: Option<Seq<char>>, command: Seq<Seq<char>>) -> Result<
    ModeView,
    Seq<char>,
> {
    match raw {
        Some(r) => if trim_ws(r).len() == 0 {
            Err("--raw-command cannot be empty"@)
        } else {
            Ok(ModeView::Raw(r))
        },
        None => if command.len() > 0 {
            Ok(ModeView::Argv(command))
        } else {
            Err("provide a command after -- or pass --raw-command"@)
        },
    }
}

pub open spec fn opt_view(o: Option<String>) -> Option<Seq<char>> {
    match o {
        Some(s) => Some(s@),
        None => None,
    }
}

/// Chooses between argv execution and raw-shell execution.
pub fn parse_mode(args: &HarnessArgs) -> (r: Result<ExecutionMode, String>)
    ensures
        match r {
            Ok(m) => parse_mode_spec(opt_view(args.raw_command), views(args.command@)) == Ok::<
                ModeView,
                Seq<char>,
            >(m@),
            Err(e) => parse_mode_spec(opt_view(args.raw_command), views(args.command@)) == Err::<
                ModeView,
                Seq<char>,
            >(e@),
        },
{
    match &args.raw_command {
        Some(raw) => {
            let c = chars_of(raw.as_str());
            let (a, b) = trim_ws_bounds(&c);
            if a == b {
                Err(owned("--raw-command cannot be empty"))
            } else {
                Ok(ExecutionMode::Raw(raw.clone()))
            }
        },
        None => {
            if args.command.len() > 0 {
                Ok(ExecutionMode::Argv(clone_strings(&args.command)))
            } else {
                Err(owned("provide a command after -- or pass --raw-command"))
            }
        },
    }
}

/// The unit separator that `display_argv` puts between arguments.
pub open spec fn unit_sep() -> Seq<char> {
    seq!['\u{1f}']
}

/// Arguments joined with U+001F, so that argument boundaries survive.
pub fn display_argv(argv: &Vec<String>) -> (out: String)
    ensures
        out@ == join(views(argv@), unit_sep()),
{
    let parts = chars_all(argv);
    let mut sep: Vec<char> = Vec::new();
    sep.push('\u{1f}');
    assert(sep@ =~= unit_sep());
    let joined = join_chars(&parts, &sep);
    string_of(&joined)
}

/// The input the policy sees for an execution mode.
pub fn policy_input_for(mode: &ExecutionMode) -> (input: PolicyInput)
    ensures
        match mode@ {
            ModeView::Argv(a) => input.raw_display@ == join(a, unit_sep()) && views(input.argv@) == a
                && !input.raw_shell,
            ModeView::Raw(r) => input.raw_display@ == r && input.argv@.len() == 0 && input.raw_shell,
        },
{
    match mode {
        ExecutionMode::Argv(argv) => PolicyInput {
            raw_display: display_argv(argv),
            argv: clone_strings(argv),
            raw_shell: false,
        },
        ExecutionMode::Raw(raw) => PolicyInput {
            raw_display: raw.clone(),
            argv: Vec::new(),
            raw_shell: true,
        },
    }
}

/// What `harness` does once the policy has decided: `Some(code)` ends the
/// command with that exit code before anything runs, `None` runs it.
pub fn exit_before_run(decision: &PolicyDecision, explain: bool, dry_run: bool) -> (r: Option<i32>)
    ensures
        r == (if decision@ is Deny {
            Some(1i32)
        } else if explain || dry_run {
            Some(0i32)
        } else {
            None
        }),
{
    match decision {
        PolicyDecision::Deny(_) => Some(1),
        _ => if explain || dry_run {
            Some(0)
        } else {
            None
        },
    }
}

/// The decision's name and its reasons, as the audit log records them.
pub fn decision_parts(decision: &PolicyDecision) -> (r: (String, Vec<String>))
    ensures
        match decision@ {
            DecisionView::Allow => r.0@ == "allow"@ && r.1@.len() == 0,
            DecisionView::Warn(w) => r.0@ == "warn"@ && views(r.1@) == w,
            DecisionView::Deny(d) => r.0@ == "deny"@ && views(r.1@) == d,
        },
{
    match decision {
        PolicyDecision::Allow => (owned("allow"), Vec::new()),
        PolicyDecision::Warn(reasons) => (owned("warn"), clone_strings(reasons)),
        PolicyDecision::Deny(reasons) => (owned("deny"), clone_strings(reasons)),
    }
}

// ---------------------------------------------------------------------------
// Audit-log text.

/// The command text the audit log keeps, and whether it was cut.
pub open spec fn cap_spec(command: Seq<char>) -> (Seq<char>, bool) {
    if command.len() <= MAX_LOGGED_COMMAND_LEN {
        (command, false)
    } else {
        (command.take(MAX_LOGGED_COMMAND_LEN as int) + "...[truncated]"@, true)
    }
}

/// At most `MAX_LOGGED_COMMAND_LEN` chars of the command, marked when cut.
pub fn cap_logged_command(command: &str) -> (r: (String, bool))
    ensures
        r.0@ == cap_spec(command@).0,
        r.1 == cap_spec(command@).1,
{
    let c = chars_of(command);
    if c.len() <= MAX_LOGGED_COMMAND_LEN {
        return (string_of(&c), false);
    }
    let mut capped = slice_range(&c, 0, MAX_LOGGED_COMMAND_LEN);
    assert(c@.subrange(0, MAX_LOGGED_COMMAND_LEN as int) =~= c@.take(MAX_LOGGED_COMMAND_LEN as int));
    append_str(&mut capped, "...[truncated]");
    (string_of(&capped), true)
}

pub open spec fn is_secret_assignment_spec(lower: Seq<char>) -> bool {
    ||| contains_sub(lower, "token="@)
    ||| contains_sub(lower, "_authtoken="@)
    ||| contains_sub(lower, "authorization="@)
    ||| contains_sub(lower, "password="@)
    ||| contains_sub(lower, "secret="@)
    ||| contains_sub(lower, "api_key="@)
    ||| contains_sub(lower, "apikey="@)
}

pub open spec fn is_secret_flag_spec(lower: Seq<char>) -> bool {
    lower == "--token"@ || lower == "--auth-token"@ || lower == "--password"@ || lower
        == "--secret"@ || lower == "--api-key"@ || lower == "-p"@
}

pub open spec fn redact_assignment_spec(token: Seq<char>) -> Seq<char> {
    if token.contains('=') {
        before_char(token, '=') + "=[REDACTED]"@
    } else {
        "[REDACTED]"@
    }
}

/// Redacted words of the first `n` words of `toks`, and whether the next word
/// must be redacted.
pub open spec fn redact_prefix(toks: Seq<Seq<char>>, n: nat) -> (Seq<Seq<char>>, bool)
    decreases n,
{
    if n == 0 {
        (Seq::empty(), false)
    } else {
        let prev = redact_prefix(toks, (n - 1) as nat);
        let out = prev.0;
        let t = toks[n - 1];
        let lower = lower_seq(t);
        if prev.1 {
            (out.push("[REDACTED]"@), false)
        } else if lower == "bearer"@ {
            (out.push("Bearer"@), true)
        } else if starts_with(lower, "bearer "@) {
            (out.push("Bearer [REDACTED]"@), false)
        } else if is_secret_assignment_spec(lower) {
            (out.push(redact_assignment_spec(t)), contains_sub(lower, "bearer"@))
        } else if is_secret_flag_spec(lower) {
            (out.push(t), true)
        } else {
            (out.push(t), false)
        }
    }
}

/// The command with secret values replaced by `[REDACTED]`, words re-joined
/// with single spaces.
pub open spec fn redact_spec(command: Seq<char>) -> Seq<char> {
    join(redact_prefix(words(command), words(command).len()).0, " "@)
}

/// Whether a lower-cased word assigns a secret.
pub fn is_secret_assignment(lower: &[char]) -> (r: bool)
    ensures
        r == is_secret_assignment_spec(lower@),
{
    contains_str(lower, "token=") || contains_str(lower, "_authtoken=") || contains_str(
        lower,
        "authorization=",
    ) || contains_str(lower, "password=") || contains_str(lower, "secret=") || contains_str(
        lower,
        "api_key=",
    ) || contains_str(lower, "apikey=")
}

/// Whether a lower-cased word is a flag whose value is a secret.
pub fn is_secret_flag(lower: &[char]) -> (r: bool)
    ensures
        r == is_secret_flag_spec(lower@),
{
    eq_str(lower, "--token") || eq_str(lower, "--auth-token") || eq_str(lower, "--password")
        || eq_str(lower, "--secret") || eq_str(lower, "--api-key") || eq_str(lower, "-p")
}

/// `KEY=value` becomes `KEY=[REDACTED]`; a word without `=` becomes `[REDACTED]`.
pub fn redact_assignment(token: &[char]) -> (out: Vec<char>)
    ensures
        out@ == redact_assignment_spec(token@),
{
    match split_once_char(token, '=') {
        Some((key, _)) => {
            let mut out = key;
            append_str(&mut out, "=[REDACTED]");
            out
        },
        None => chars_of("[REDACTED]"),
    }
}

/// Secret values in a command replaced by `[REDACTED]`.
pub fn redact_secrets(command: &str) -> (out: String)
    ensures
        out@ == redact_spec(command@),
{
    let c = chars_of(command);
    let toks = split_words(&c);
    let ghost tv = char_views(toks@);
    let mut out: Vec<Vec<char>> = Vec::new();
    let mut redact_next = false;
    let mut i: usize = 0;
    while i < toks.len()
        invariant
            i <= toks@.len(),
            tv == char_views(toks@),
            (char_views(out@), redact_next) == redact_prefix(tv, i as nat),
        decreases toks@.len() - i,
    {
        let token = &toks[i];
        assert(tv[i as int] == token@);
        let lower = to_ascii_lower(token);
        let ghost prev = out@;
        if redact_next {
            out.push(chars_of("[REDACTED]"));
            redact_next = false;
        } else if eq_str(&lower, "bearer") {
            out.push(chars_of("Bearer"));
            redact_next = true;
        } else if starts_with_str(&lower, "bearer ") {
            out.push(chars_of("Bearer [REDACTED]"));
        } else if is_secret_assignment(&lower) {
            out.push(redact_assignment(token));
            if contains_str(&lower, "bearer") {
                redact_next = true;
            }
        } else if is_secret_flag(&lower) {
            out.push(copy_chars(token));
            redact_next = true;
        } else {
            out.push(copy_chars(token));
        }
        assert(char_views(out@) =~= char_views(prev).push(out@.last()@));
        i = i + 1;
    }
    let mut sp: Vec<char> = Vec::new();
    sp.push(' ');
    proof {
        reveal_strlit(" ");
        assert(sp@ =~= " "@);
    }
    let joined = join_chars(&out, &sp);
    string_of(&joined)
}

/// Redaction keeps one output word for every word of the command.
pub proof fn lemma_redaction_keeps_word_count(toks: Seq<Seq<char>>, n: nat)
    ensures
        redact_prefix(toks, n).0.len() == n,
    decreases n,
{
    if n > 0 {
        lemma_redaction_keeps_word_count(toks, (n - 1) as nat);
    }
}

/// A word that redaction leaves alone: not `bearer`, no bearer value, no
/// secret assignment, no secret-valued flag (all compared lower-cased).
pub open spec fn plain_word(t: Seq<char>) -> bool {
    let lower = lower_seq(t);
    &&& lower != "bearer"@
    &&& !starts_with(lower, "bearer "@)
    &&& !is_secret_assignment_spec(lower)
    &&& !is_secret_flag_spec(lower)
}

/// Redaction changes nothing in a command none of whose words is secret:
/// every word is kept as it is, and the command comes back as its words
/// joined by single spaces.
pub proof fn lemma_plain_words_unchanged(toks: Seq<Seq<char>>, n: nat)
    requires
        n <= toks.len(),
        forall|i: int| 0 <= i < n ==> plain_word(#[trigger] toks[i]),
    ensures
        redact_prefix(toks, n) == (toks.take(n as int), false),
    decreases n,
{
    if n > 0 {
        lemma_plain_words_unchanged(toks, (n - 1) as nat);
        assert(plain_word(toks[n - 1]));
        assert(toks.take(n as int) =~= toks.take(n - 1).push(toks[n - 1]));
    }
}

/// A command none of whose words is secret is redacted to its words joined
/// by single spaces.
pub proof fn lemma_plain_command_unchanged(command: Seq<char>)
    requires
        forall|i: int| 0 <= i < words(command).len() ==> plain_word(#[trigger] words(command)[i]),
    ensures
        redact_spec(command) == join(words(command), " "@),
{
    let ws = words(command);
    lemma_plain_words_unchanged(ws, ws.len());
    assert(ws.take(ws.len() as int) =~= ws);
}

proof fn lemma_before_char_prefix(s: Seq<char>, c: char)
    ensures
        before_char(s, c).len() <= s.len(),
        forall|j: int| 0 <= j < before_char(s, c).len() ==> #[trigger] before_char(s, c)[j] == s[j],
    decreases s.len(),
{
    if s.len() > 0 && s[0] != c {
        lemma_before_char_prefix(s.drop_first(), c);
        let b = before_char(s, c);
        assert forall|j: int| 0 <= j < b.len() implies #[trigger] b[j] == s[j] by {
            if j > 0 {
                assert(b[j] == before_char(s.drop_first(), c)[j - 1]);
            }
        }
    }
}

proof fn lemma_redacted_word_shape(t: Seq<char>, prev_redacts: bool)
    requires
        crate::text::plain_word_shape(t),
    ensures
        crate::text::plain_word_shape(({
            let lower = lower_seq(t);
            if prev_redacts {
                "[REDACTED]"@
            } else if lower == "bearer"@ {
                "Bearer"@
            } else if starts_with(lower, "bearer "@) {
                "Bearer [REDACTED]"@
            } else if is_secret_assignment_spec(lower) {
                redact_assignment_spec(t)
            } else {
                t
            }
        })),
{
    reveal_strlit("[REDACTED]");
    reveal_strlit("Bearer");
    reveal_strlit("bearer");
    reveal_strlit("bearer ");
    reveal_strlit("=[REDACTED]");
    let lower = lower_seq(t);
    let red = "[REDACTED]"@;
    assert(crate::text::plain_word_shape(red)) by {
        assert forall|j: int| 0 <= j < red.len() implies !crate::text::is_ws(#[trigger] red[j]) by {}
    }
    if !prev_redacts && lower != "bearer"@ && starts_with(lower, "bearer "@) {
        assert(lower.subrange(0, 7)[6] == ' ');
        assert(lower[6] == ' ');
        assert(!crate::text::is_ws(t[6]));
        assert(false);
    }
    if !prev_redacts && lower == "bearer"@ {
        let b = "Bearer"@;
        assert forall|j: int| 0 <= j < b.len() implies !crate::text::is_ws(#[trigger] b[j]) by {}
    }
    if t.contains('=') {
        lemma_before_char_prefix(t, '=');
        let k = before_char(t, '=');
        let out = k + "=[REDACTED]"@;
        assert forall|j: int| 0 <= j < out.len() implies !crate::text::is_ws(#[trigger] out[j]) by {
            if j < k.len() {
                assert(out[j] == t[j]);
            } else {
                assert(out[j] == "=[REDACTED]"@[j - k.len()]);
            }
        }
    }
}

/// Every word of a redacted command is a word of its own: no redaction
/// joins or splits words, so the redacted command has exactly as many
/// whitespace-separated words as the command.
pub proof fn lemma_redaction_keeps_whitespace_words(command: Seq<char>)
    ensures
        words(redact_spec(command)).len() == words(command).len(),
{
    let toks = words(command);
    crate::text::lemma_words_shape(command);
    lemma_redacted_prefix_shape(toks, toks.len());
    lemma_redaction_keeps_word_count(toks, toks.len());
    crate::text::lemma_words_of_join(redact_prefix(toks, toks.len()).0);
}

proof fn lemma_redacted_prefix_shape(toks: Seq<Seq<char>>, n: nat)
    requires
        n <= toks.len(),
        forall|i: int| 0 <= i < toks.len() ==> crate::text::plain_word_shape(#[trigger] toks[i]),
    ensures
        forall|i: int|
            0 <= i < redact_prefix(toks, n).0.len() ==> crate::text::plain_word_shape(
                #[trigger] redact_prefix(toks, n).0[i],
            ),
    decreases n,
{
    if n > 0 {
        lemma_redacted_prefix_shape(toks, (n - 1) as nat);
        let prev = redact_prefix(toks, (n - 1) as nat);
        assert(crate::text::plain_word_shape(toks[n - 1]));
        lemma_redacted_word_shape(toks[n - 1], prev.1);
        let cur = redact_prefix(toks, n).0;
        assert forall|i: int| 0 <= i < cur.len() implies crate::text::plain_word_shape(#[trigger] cur[i]) by {
            if i < prev.0.len() {
                assert(cur[i] == prev.0[i]);
            }
        }
    }
}

proof fn lemma_sub_has_char(s: Seq<char>, p: Seq<char>, k: int)
    requires
        contains_sub(s, p),
        0 <= k < p.len(),
    ensures
        s.contains(p[k]),
{
    let i = choose|i: int| occurs_at(s, p, i);
    assert(s.subrange(i, i + p.len())[k] == p[k]);
    assert(s[i + k] == p[k]);
}

proof fn lemma_no_eq_no_assignment(lower: Seq<char>)
    requires
        !lower.contains('='),
    ensures
        !is_secret_assignment_spec(lower),
{
    reveal_strlit("token=");
    reveal_strlit("_authtoken=");
    reveal_strlit("authorization=");
    reveal_strlit("password=");
    reveal_strlit("secret=");
    reveal_strlit("api_key=");
    reveal_strlit("apikey=");
    if contains_sub(lower, "token="@) {
        lemma_sub_has_char(lower, "token="@, 5);
    }
    if contains_sub(lower, "_authtoken="@) {
        lemma_sub_has_char(lower, "_authtoken="@, 10);
    }
    if contains_sub(lower, "authorization="@) {
        lemma_sub_has_char(lower, "authorization="@, 13);
    }
    if contains_sub(lower, "password="@) {
        lemma_sub_has_char(lower, "password="@, 8);
    }
    if contains_sub(lower, "secret="@) {
        lemma_sub_has_char(lower, "secret="@, 6);
    }
    if contains_sub(lower, "api_key="@) {
        lemma_sub_has_char(lower, "api_key="@, 7);
    }
    if contains_sub(lower, "apikey="@) {
        lemma_sub_has_char(lower, "apikey="@, 6);
    }
}

/// The word after a secret-valued flag is always replaced by `[REDACTED]`.
pub proof fn lemma_flag_value_redacted(toks: Seq<Seq<char>>, i: int)
    requires
        0 <= i,
        i + 1 < toks.len(),
        is_secret_flag_spec(lower_seq(toks[i])),
        !redact_prefix(toks, i as nat).1,
    ensures
        redact_prefix(toks, (i + 2) as nat).0[i + 1] == "[REDACTED]"@,
{
    reveal_strlit("--token");
    reveal_strlit("--auth-token");
    reveal_strlit("--password");
    reveal_strlit("--secret");
    reveal_strlit("--api-key");
    reveal_strlit("-p");
    reveal_strlit("bearer");
    reveal_strlit("bearer ");
    let lower = lower_seq(toks[i]);
    assert(!lower.contains('='));
    lemma_no_eq_no_assignment(lower);
    assert(lower.len() >= 2 && lower[0] == '-');
    assert("bearer"@[0] == 'b');
    assert(lower != "bearer"@);
    if starts_with(lower, "bearer "@) {
        assert(lower.subrange(0, 7)[0] == "bearer "@[0]);
    }
    assert(!starts_with(lower, "bearer "@));
    assert(redact_prefix(toks, (i + 1) as nat).1);
    lemma_redaction_keeps_word_count(toks, (i + 1) as nat);
}

/// The name a command is logged under when no agent root identifies it.
pub const UNIDENTIFIED_AGENT: &'static str = "unidentified_agent";

pub open spec fn identity_spec(root_is_empty: bool, file_name: Option<Seq<char>>) -> Seq<char> {
    if root_is_empty {
        UNIDENTIFIED_AGENT@
    } else {
        match file_name {
            Some(n) => if strip_prefix_all(n, "__agent_"@).len() > 0 {
                strip_prefix_all(n, "__agent_"@)
            } else {
                UNIDENTIFIED_AGENT@
            },
            None => UNIDENTIFIED_AGENT@,
        }
    }
}

/// The agent a logged command is attributed to: the last component
/// (`file_name`) of the agent root, without its `__agent_` prefixes; the
/// unidentified name when the root is unset or that leaves nothing.
pub fn identity_from_root(root_is_empty: bool, file_name: Option<&str>) -> (out: String)
    ensures
        out@ == identity_spec(
            root_is_empty,
            match file_name {
                Some(n) => Some(n@),
                None => None,
            },
        ),
{
    if root_is_empty {
        return owned(UNIDENTIFIED_AGENT);
    }
    match file_name {
        None => owned(UNIDENTIFIED_AGENT),
        Some(n) => {
            let p = chars_of("__agent_");
            let rest = strip_prefix_all_exec(&chars_of(n), &p);
            if rest.len() > 0 {
                string_of(&rest)
            } else {
                owned(UNIDENTIFIED_AGENT)
            }
        },
    }
}

/// A line the harness prints: on standard output or standard error.
pub struct ReportLine {
    pub to_stdout: bool,
    pub text: String,
}

pub open spec fn line_views(ls: Seq<ReportLine>) -> Seq<(bool, Seq<char>)> {
    ls.map_values(|l: ReportLine| (l.to_stdout, l.text@))
}

pub open spec fn prefixed(prefix: Seq<char>, rs: Seq<Seq<char>>) -> Seq<(bool, Seq<char>)> {
    rs.map_values(|r: Seq<char>| (false, prefix + r))
}

/// What the harness prints about a decision: its verdict (allow and warn on
/// standard output, deny on standard error), each reason on standard error,
/// and, when verbose, how the command was matched.
pub open spec fn decision_lines_spec(d: DecisionView, raw_shell: bool, verbose: bool) -> Seq<(bool, Seq<char>)> {
    let head = match d {
        DecisionView::Allow => seq![(true, "harness: allow"@)],
        DecisionView::Warn(w) => seq![(true, "harness: warn"@)] + prefixed("warning: "@, w),
        DecisionView::Deny(r) => seq![(false, "harness: deny"@)] + prefixed("denied: "@, r),
    };
    if verbose {
        head.push(
            (
                true,
                if raw_shell {
                    "harness: raw-shell command, policy matching best-effort"@
                } else {
                    "harness: argv command, policy matching argv-preserving"@
                },
            ),
        )
    } else {
        head
    }
}

fn push_reasons(out: &mut Vec<ReportLine>, prefix: &str, reasons: &Vec<String>)
    ensures
        line_views(final(out)@) == line_views(old(out)@) + prefixed(prefix@, views(reasons@)),
{
    let ghost start = line_views(out@);
    let mut i: usize = 0;
    while i < reasons.len()
        invariant
            i <= reasons@.len(),
            line_views(out@) == start + prefixed(prefix@, views(reasons@).take(i as int)),
        decreases reasons@.len() - i,
    {
        let mut v: Vec<char> = Vec::new();
        append_str(&mut v, prefix);
        append_str(&mut v, reasons[i].as_str());
        let ghost prev = line_views(out@);
        out.push(ReportLine { to_stdout: false, text: string_of(&v) });
        assert(line_views(out@) =~= prev.push((false, prefix@ + reasons@[i as int]@)));
        assert(views(reasons@).take(i + 1) =~= views(reasons@).take(i as int).push(reasons@[i as int]@));
        assert(prefixed(prefix@, views(reasons@).take(i + 1)) =~= prefixed(prefix@, views(reasons@).take(i as int)).push(
            (false, prefix@ + reasons@[i as int]@),
        ));
        i = i + 1;
    }
    assert(views(reasons@).take(i as int) =~= views(reasons@));
}

/// The lines printed about a decision (see [`decision_lines_spec`]).
pub fn decision_lines(decision: &PolicyDecision, raw_shell: bool, verbose: bool) -> (out: Vec<ReportLine>)
    ensures
        line_views(out@) == decision_lines_spec(decision@, raw_shell, verbose),
{
    let mut out: Vec<ReportLine> = Vec::new();
    match decision {
        PolicyDecision::Allow => {
            out.push(ReportLine { to_stdout: true, text: owned("harness: allow") });
            assert(line_views(out@) =~= seq![(true, "harness: allow"@)]);
        },
        PolicyDecision::Warn(reasons) => {
            out.push(ReportLine { to_stdout: true, text: owned("harness: warn") });
            assert(line_views(out@) =~= seq![(true, "harness: warn"@)]);
            push_reasons(&mut out, "warning: ", reasons);
        },
        PolicyDecision::Deny(reasons) => {
            out.push(ReportLine { to_stdout: false, text: owned("harness: deny") });
            assert(line_views(out@) =~= seq![(false, "harness: deny"@)]);
            push_reasons(&mut out, "denied: ", reasons);
        },
    }
    if verbose {
        let ghost prev = line_views(out@);
        if raw_shell {
            out.push(ReportLine { to_stdout: true, text: owned("harness: raw-shell command, policy matching best-effort") });
        } else {
            out.push(ReportLine { to_stdout: true, text: owned("harness: argv command, policy matching argv-preserving") });
        }
        assert(line_views(out@) =~= prev.push(line_views(out@).last()));
    }
    out
}


/// `rm` with a recursive force flag (`-rf`, `-fr`, or both `-r` and `-f`,
/// compared after normalization) aimed at a filesystem root is always
/// denied, as a destructive root removal, whatever else the command holds.
pub proof fn lemma_rm_root_removal_denied(raw_display: Seq<char>, argv: Seq<Seq<char>>)
    requires
        argv.len() > 0,
        normalized(argv)[0] == "rm"@,
        exists|i: int| 0 <= i < argv.len() && is_root_target_spec(#[trigger] normalized(argv)[i]),
        (exists|i: int| 0 <= i < argv.len() && #[trigger] normalized(argv)[i] == "-rf"@)
            || (exists|i: int| 0 <= i < argv.len() && #[trigger] normalized(argv)[i] == "-fr"@)
            || ((exists|i: int| 0 <= i < argv.len() && #[trigger] normalized(argv)[i] == "-r"@)
                && (exists|i: int| 0 <= i < argv.len() && #[trigger] normalized(argv)[i] == "-f"@)),
    ensures
        policy_spec(raw_display, argv, false) matches DecisionView::Deny(ds) && ds.len() >= 1 && ds[0]
            == "denied destructive root removal"@,
{
    let tokens = normalized(argv);
    assert(tokens.len() == argv.len());
    assert(any_root_target(tokens));
    assert(has_rm_recursive_force_spec(tokens));
    let d = argv_denials(tokens);
    assert(d[0] == "denied destructive root removal"@);
}

} // verus!
