//! `role-experiment`: the checks of a run's arguments and identifiers, the
//! line diff of two role documents, the attempts a run plans, and the report
//! built from them.
use vstd::prelude::*;
use vstd::utf8::{decode_utf8, valid_utf8};
use sha2::{Digest, Sha256};
use crate::cli::opt_view;
use crate::json::{item_views, json_member, json_member_of, json_shape, json_shape_of, JsonMember, JsonMemberView, JsonShape, JsonShapeView};
use crate::text::{
    append_chars, append_str, char_views, chars_of, decimal, decode_utf8_text, ends_with,
    ends_with_str, contains_str, contains_sub, join, starts_with, starts_with_str, join_chars, lines, lines_of, owned, slice_range, push_decimal, seq_eq, str_eq, string_of, trim, trim_ws, utf8_error_text,
    views,
};

verus! {

broadcast use vstd::string::group_string_axioms;

/// An error of a role-experiment command.
#[derive(Debug)]
pub struct CliError {
    pub code: String,
    pub message: String,
    pub variant: Option<String>,
    pub line: Option<usize>,
    pub field: Option<String>,
    pub path: Option<String>,
}

/// An error with a code, a message and possibly a variant.
pub fn err(code: &str, message: &str, variant: Option<&str>) -> (e: CliError)
    ensures
        e.code@ == code@,
        e.message@ == message@,
        match variant {
            Some(v) => e.variant is Some && e.variant->0@ == v@,
            None => e.variant is None,
        },
        e.line is None && e.field is None && e.path is None,
{
    CliError {
        code: owned(code),
        message: owned(message),
        variant: match variant {
            Some(v) => Some(owned(v)),
            None => None,
        },
        line: None,
        field: None,
        path: None,
    }
}

// ---------------------------------------------------------------------------
// Run identifiers and run arguments.

pub open spec fn digit(c: char) -> bool {
    '0' <= c && c <= '9'
}

/// `YYYYMMDD-HHMMSS`, digits around a hyphen.
pub open spec fn run_id_base(s: Seq<char>) -> bool {
    &&& s.len() >= 15
    &&& s[8] == '-'
    &&& forall|i: int| 0 <= i < 8 ==> digit(#[trigger] s[i])
    &&& forall|i: int| 9 <= i < 15 ==> digit(#[trigger] s[i])
}

/// A run id: `YYYYMMDD-HHMMSS`, or that followed by `-NN` with `NN` from
/// `01` to `99`.
pub open spec fn run_id_ok(s: Seq<char>) -> bool {
    ||| (s.len() == 15 && run_id_base(s))
    ||| (s.len() == 18 && run_id_base(s) && s[15] == '-' && digit(s[16]) && digit(s[17]) && !(s[16]
        == '0' && s[17] == '0'))
}

pub const RUN_ID_ERROR: &'static str = "Run id must match YYYYMMDD-HHMMSS or YYYYMMDD-HHMMSS-NN";

fn digits_in(v: &[char], from: usize, to: usize) -> (r: bool)
    requires
        from <= to <= v@.len(),
    ensures
        r == forall|i: int| from <= i < to ==> digit(#[trigger] v@[i]),
{
    let mut i = from;
    while i < to
        invariant
            from <= i <= to <= v@.len(),
            forall|k: int| from <= k < i ==> digit(#[trigger] v@[k]),
        decreases to - i,
    {
        if !('0' <= v[i] && v[i] <= '9') {
            assert(!digit(v@[i as int]));
            return false;
        }
        i = i + 1;
    }
    true
}

/// Checks a run id (see [`run_id_ok`]).
pub fn validate_run_id(run_id: &str) -> (r: Result<(), Vec<CliError>>)
    ensures
        r is Ok <==> run_id_ok(run_id@),
        r matches Err(es) ==> errs_view(es@) == seq![plain_error("run_id_invalid"@, RUN_ID_ERROR@)],
{
    let v = chars_of(run_id);
    let base = v.len() >= 15 && v[8] == '-' && digits_in(&v, 0, 8) && digits_in(&v, 9, 15);
    let valid = if v.len() == 15 {
        base
    } else if v.len() == 18 {
        base && v[15] == '-' && digits_in(&v, 16, 18) && !(v[16] == '0' && v[17] == '0')
    } else {
        false
    };
    if valid {
        Ok(())
    } else {
        let out = vec![err("run_id_invalid", RUN_ID_ERROR, None)];
        assert(errs_view(out@) =~= seq![plain_error("run_id_invalid"@, RUN_ID_ERROR@)]);
        Err(out)
    }
}

/// Checks a replicate count: from 1 to 100.
pub fn validate_replicates(replicates: u32) -> (r: Result<(), Vec<CliError>>)
    ensures
        r is Ok <==> 1 <= replicates <= 100,
        r matches Err(es) ==> errs_view(es@) == seq![
            plain_error("replicates_invalid"@, "--replicates must be between 1 and 100"@),
        ],
{
    if 1 <= replicates && replicates <= 100 {
        Ok(())
    } else {
        let out = vec![err("replicates_invalid", "--replicates must be between 1 and 100", None)];
        assert(errs_view(out@) =~= seq![
            plain_error("replicates_invalid"@, "--replicates must be between 1 and 100"@),
        ]);
        Err(out)
    }
}

/// The arguments of `role-experiment run` that decide how it runs.
pub struct RunArgs {
    pub project: String,
    pub experiment: String,
    pub prompt_suite: String,
    pub replicates: u32,
    pub seed: Option<u64>,
    pub run_id: Option<String>,
    pub dry_run: bool,
    pub execute: bool,
    pub provider: String,
    pub attempt_timeout_secs: u64,
    pub max_parallel: u32,
    pub retain_workgroup: Option<bool>,
    pub resume_run: bool,
    pub retry_failed: bool,
    pub fake_executor: bool,
}

/// The refusals of a run's mode flags, in order.
pub open spec fn run_mode_errors(a: RunArgs, fake_executor_available: bool) -> Seq<CliErrorView> {
    let s0 = push_err_if(
        Seq::empty(),
        !a.dry_run && !a.execute,
        "run_mode_required"@,
        "Specify exactly one of --dry-run or --execute"@,
    );
    let s1 = push_err_if(
        s0,
        a.dry_run && a.execute,
        "run_mode_conflict"@,
        "Specify only one of --dry-run or --execute"@,
    );
    let s2 = push_err_if(
        s1,
        a.fake_executor && !fake_executor_available,
        "fake_executor_not_available"@,
        "--fake-executor is only available to test builds"@,
    );
    let s3 = push_err_if(
        s2,
        a.max_parallel != 1,
        "parallel_execution_not_supported"@,
        "--max-parallel must be 1 in Phase 3A"@,
    );
    let s4 = push_err_if(
        s3,
        !(30 <= a.attempt_timeout_secs <= 86_400),
        "attempt_timeout_invalid"@,
        "--attempt-timeout-secs must be between 30 and 86400"@,
    );
    let s5 = push_err_if(
        s4,
        a.retain_workgroup == Some(false),
        "cleanup_not_supported"@,
        "--retain-workgroup=false is not supported in Phase 3A"@,
    );
    let s6 = push_err_if(
        s5,
        a.resume_run && !a.execute,
        "resume_requires_execute"@,
        "--resume-run requires --execute"@,
    );
    let s7 = push_err_if(
        s6,
        a.resume_run && a.run_id.is_none(),
        "resume_requires_run_id"@,
        "--resume-run requires --run-id"@,
    );
    push_err_if(
        s7,
        a.retry_failed && !a.resume_run,
        "retry_failed_requires_resume"@,
        "--retry-failed requires --resume-run"@,
    )
}

/// Checks the mode flags of a run: exactly one of dry run and execute; the
/// fake executor only where it is available (`fake_executor_available`);
/// one attempt at a time; an attempt timeout from 30 to 86400 seconds; the
/// workgroup retained; resuming only an executed run with an id; retrying
/// failed attempts only when resuming. Every refusal is reported.
pub fn validate_run_mode(args: &RunArgs, fake_executor_available: bool) -> (r: Result<
    (),
    Vec<CliError>,
>)
    ensures
        match r {
            Ok(()) => run_mode_errors(*args, fake_executor_available).len() == 0,
            Err(es) => errs_view(es@) == run_mode_errors(*args, fake_executor_available) && es@.len() > 0,
        },
{
    let mut errors: Vec<CliError> = Vec::new();
    assert(errs_view(errors@) =~= Seq::<CliErrorView>::empty());
    push_plain(
        &mut errors,
        !args.dry_run && !args.execute,
        "run_mode_required",
        "Specify exactly one of --dry-run or --execute",
    );
    push_plain(
        &mut errors,
        args.dry_run && args.execute,
        "run_mode_conflict",
        "Specify only one of --dry-run or --execute",
    );
    push_plain(
        &mut errors,
        args.fake_executor && !fake_executor_available,
        "fake_executor_not_available",
        "--fake-executor is only available to test builds",
    );
    push_plain(
        &mut errors,
        args.max_parallel != 1,
        "parallel_execution_not_supported",
        "--max-parallel must be 1 in Phase 3A",
    );
    push_plain(
        &mut errors,
        !(30 <= args.attempt_timeout_secs && args.attempt_timeout_secs <= 86_400),
        "attempt_timeout_invalid",
        "--attempt-timeout-secs must be between 30 and 86400",
    );
    push_plain(
        &mut errors,
        args.retain_workgroup == Some(false),
        "cleanup_not_supported",
        "--retain-workgroup=false is not supported in Phase 3A",
    );
    push_plain(
        &mut errors,
        args.resume_run && !args.execute,
        "resume_requires_execute",
        "--resume-run requires --execute",
    );
    push_plain(
        &mut errors,
        args.resume_run && args.run_id.is_none(),
        "resume_requires_run_id",
        "--resume-run requires --run-id",
    );
    push_plain(
        &mut errors,
        args.retry_failed && !args.resume_run,
        "retry_failed_requires_resume",
        "--retry-failed requires --resume-run",
    );
    if errors.len() == 0 {
        Ok(())
    } else {
        Err(errors)
    }
}

/// A real execution needs a running app; only the fake executor runs from
/// the command line.
pub fn execute_requires_runtime_guard(args: &RunArgs) -> (r: Result<(), Vec<CliError>>)
    ensures
        r is Err <==> (args.execute && !args.fake_executor),
        r matches Err(es) ==> errs_view(es@) == seq![
            plain_error(
                "execution_requires_running_app"@,
                "Real role-experiment execution requires a running AgentsCommander app or daemon; Phase 3A CLI-only execution has no side effects"@,
            ),
        ],
{
    if args.execute && !args.fake_executor {
        let out = vec![
            err(
                "execution_requires_running_app",
                "Real role-experiment execution requires a running AgentsCommander app or daemon; Phase 3A CLI-only execution has no side effects",
                None,
            ),
        ];
        assert(errs_view(out@) =~= seq![
            plain_error(
                "execution_requires_running_app"@,
                "Real role-experiment execution requires a running AgentsCommander app or daemon; Phase 3A CLI-only execution has no side effects"@,
            ),
        ]);
        Err(out)
    } else {
        Ok(())
    }
}

/// A prompt id: 1 to 80 chars, each a lower-case ASCII letter, a digit, `-`
/// or `_`.
pub open spec fn safe_prompt_id(s: Seq<char>) -> bool {
    &&& 0 < s.len() <= 80
    &&& forall|i: int|
        0 <= i < s.len() ==> ('a' <= #[trigger] s[i] <= 'z') || digit(s[i]) || s[i] == '-' || s[i]
            == '_'
}

/// Whether `value` is a safe prompt id (see [`safe_prompt_id`]).
pub fn is_safe_prompt_id(value: &str) -> (r: bool)
    ensures
        r == safe_prompt_id(value@),
{
    let v = chars_of(value);
    if v.len() == 0 || v.len() > 80 {
        return false;
    }
    let mut i: usize = 0;
    while i < v.len()
        invariant
            i <= v@.len(),
            v@ == value@,
            forall|k: int|
                0 <= k < i ==> ('a' <= #[trigger] v@[k] <= 'z') || digit(v@[k]) || v@[k] == '-'
                    || v@[k] == '_',
        decreases v@.len() - i,
    {
        let c = v[i];
        if !(('a' <= c && c <= 'z') || ('0' <= c && c <= '9') || c == '-' || c == '_') {
            assert(!(('a' <= v@[i as int] <= 'z') || digit(v@[i as int]) || v@[i as int] == '-'
                || v@[i as int] == '_'));
            return false;
        }
        i = i + 1;
    }
    true
}

/// Name of the agent of a variant: the source agent and the variant, joined
/// by a hyphen.
pub fn variant_agent_name(source_agent: &str, variant: &str) -> (out: String)
    ensures
        out@ == source_agent@ + "-"@ + variant@,
{
    let mut v: Vec<char> = Vec::new();
    append_str(&mut v, source_agent);
    append_str(&mut v, "-");
    append_str(&mut v, variant);
    string_of(&v)
}

/// An experiment compares at least two variants.
pub fn check_variant_count(count: usize) -> (r: Result<(), Vec<CliError>>)
    ensures
        match r {
            Ok(()) => count >= 2,
            Err(es) => count < 2 && errs_view(es@) == seq![
                plain_error("variant_count_invalid"@, "--variants must contain at least two entries"@),
            ],
        },
{
    if count < 2 {
        let es = vec![err("variant_count_invalid", "--variants must contain at least two entries", None)];
        assert(errs_view(es@) =~= seq![
            plain_error("variant_count_invalid"@, "--variants must contain at least two entries"@),
        ]);
        Err(es)
    } else {
        Ok(())
    }
}

/// The metadata of a new variant: its agent (see [`variant_agent_name`]),
/// whose matrix and role paths are relative to the variant's metadata file,
/// the digest of the role it starts from, and its creation time as both
/// times.
pub fn new_variant_metadata(variant: &str, source_agent: &str, role_sha256: &str, now: &str) -> (m: VariantMetadata)
    ensures
        m.schema_version == 1,
        m.name@ == variant@,
        m.source_agent@ == source_agent@,
        m.agent_name@ == source_agent@ + "-"@ + variant@,
        m.matrix_path@ == "../../../_agent_"@ + m.agent_name@,
        m.role_path@ == "../../../_agent_"@ + m.agent_name@ + "/Role.md"@,
        m.role_sha256@ == role_sha256@,
        m.created_at@ == now@ && m.updated_at@ == now@,
{
    let agent_name = variant_agent_name(source_agent, variant);
    let mut mp: Vec<char> = Vec::new();
    append_str(&mut mp, "../../../_agent_");
    append_str(&mut mp, agent_name.as_str());
    let mut rp: Vec<char> = mp.clone();
    append_str(&mut rp, "/Role.md");
    VariantMetadata {
        schema_version: 1,
        name: owned(variant),
        source_agent: owned(source_agent),
        agent_name,
        matrix_path: string_of(&mp),
        role_path: string_of(&rp),
        role_sha256: owned(role_sha256),
        created_at: owned(now),
        updated_at: owned(now),
    }
}

/// The metadata of a role experiment (`experiment.json`).
#[derive(Debug)]
pub struct ExperimentMetadata {
    pub schema_version: u32,
    pub name: String,
    pub project: String,
    pub source_agent: String,
    pub source_matrix_path: String,
    pub source_role_path: String,
    pub source_role_sha256: String,
    pub created_at: String,
    pub updated_at: String,
    pub variants: Vec<String>,
}

/// The metadata of a new experiment: its source agent's matrix and role
/// paths relative to the experiment directory, the role's digest, its
/// creation time as both times, and its variants in order.
pub fn new_experiment_metadata(
    name: &str,
    project: &str,
    source_agent: &str,
    role_sha256: &str,
    now: &str,
    variants: Vec<String>,
) -> (m: ExperimentMetadata)
    ensures
        m.schema_version == 1,
        m.name@ == name@ && m.project@ == project@ && m.source_agent@ == source_agent@,
        m.source_matrix_path@ == "../../_agent_"@ + source_agent@,
        m.source_role_path@ == "../../_agent_"@ + source_agent@ + "/Role.md"@,
        m.source_role_sha256@ == role_sha256@,
        m.created_at@ == now@ && m.updated_at@ == now@,
        m.variants == variants,
{
    let mut mp: Vec<char> = Vec::new();
    append_str(&mut mp, "../../_agent_");
    append_str(&mut mp, source_agent);
    let mut rp: Vec<char> = mp.clone();
    append_str(&mut rp, "/Role.md");
    ExperimentMetadata {
        schema_version: 1,
        name: owned(name),
        project: owned(project),
        source_agent: owned(source_agent),
        source_matrix_path: string_of(&mp),
        source_role_path: string_of(&rp),
        source_role_sha256: owned(role_sha256),
        created_at: owned(now),
        updated_at: owned(now),
        variants,
    }
}

/// Statuses a run can have.
pub open spec fn run_status_ok(s: Seq<char>) -> bool {
    ||| s == "dry_run"@
    ||| s == "running"@
    ||| s == "completed"@
    ||| s == "failed"@
    ||| s == "timed_out"@
    ||| s == "inconclusive"@
    ||| s == "cancelled"@
}

/// Whether `status` is a status a run can have.
pub fn valid_run_status(status: &str) -> (r: bool)
    ensures
        r == run_status_ok(status@),
{
    str_eq(status, "dry_run") || str_eq(status, "running") || str_eq(status, "completed") || str_eq(
        status,
        "failed",
    ) || str_eq(status, "timed_out") || str_eq(status, "inconclusive") || str_eq(status, "cancelled")
}

// ---------------------------------------------------------------------------
// Line diff.

/// What a line diff counted.
#[derive(Debug)]
pub struct DiffStats {
    pub added_lines: usize,
    pub removed_lines: usize,
    pub changed_lines: usize,
    pub identical: bool,
}

/// The diff lines for position `i` of the two line lists: a kept line, a
/// changed line (removed then added), or a line only one side has.
pub open spec fn diff_piece(ls: Seq<Seq<char>>, rs: Seq<Seq<char>>, i: int) -> Seq<char> {
    if i < ls.len() && i < rs.len() {
        if ls[i] == rs[i] {
            seq![' '] + ls[i] + seq!['\n']
        } else {
            seq!['-'] + ls[i] + seq!['\n', '+'] + rs[i] + seq!['\n']
        }
    } else if i < ls.len() {
        seq!['-'] + ls[i] + seq!['\n']
    } else if i < rs.len() {
        seq!['+'] + rs[i] + seq!['\n']
    } else {
        Seq::empty()
    }
}

pub open spec fn diff_body(ls: Seq<Seq<char>>, rs: Seq<Seq<char>>, n: nat) -> Seq<char>
    decreases n,
{
    if n == 0 {
        Seq::empty()
    } else {
        diff_body(ls, rs, (n - 1) as nat) + diff_piece(ls, rs, n - 1)
    }
}

/// Lines of the right side that the diff adds, among the first `n`
/// positions.
pub open spec fn added_count(ls: Seq<Seq<char>>, rs: Seq<Seq<char>>, n: nat) -> nat
    decreases n,
{
    if n == 0 {
        0
    } else {
        let i = n - 1;
        added_count(ls, rs, (n - 1) as nat) + if i < rs.len() && (i >= ls.len() || ls[i] != rs[i]) {
            1nat
        } else {
            0nat
        }
    }
}

/// Lines of the left side that the diff removes, among the first `n`
/// positions.
pub open spec fn removed_count(ls: Seq<Seq<char>>, rs: Seq<Seq<char>>, n: nat) -> nat
    decreases n,
{
    if n == 0 {
        0
    } else {
        let i = n - 1;
        removed_count(ls, rs, (n - 1) as nat) + if i < ls.len() && (i >= rs.len() || ls[i] != rs[i]) {
            1nat
        } else {
            0nat
        }
    }
}

/// The positions below `n` where the right side has a line the left side
/// does not have there.
pub open spec fn added_positions(ls: Seq<Seq<char>>, rs: Seq<Seq<char>>, n: nat) -> Seq<int> {
    Seq::new(n, |i: int| i).filter(|i: int| i < rs.len() && (i >= ls.len() || ls[i] != rs[i]))
}

/// The positions below `n` where the left side has a line the right side
/// does not have there.
pub open spec fn removed_positions(ls: Seq<Seq<char>>, rs: Seq<Seq<char>>, n: nat) -> Seq<int> {
    Seq::new(n, |i: int| i).filter(|i: int| i < ls.len() && (i >= rs.len() || ls[i] != rs[i]))
}

/// The diff's counts are line counts: the lines added are the positions
/// where the right side has a line that differs from the left side's (or
/// the left side has none), the lines removed those where the left side
/// has a line that differs from the right side's (or the right side has
/// none).
pub proof fn lemma_diff_counts_by_line(ls: Seq<Seq<char>>, rs: Seq<Seq<char>>, n: nat)
    ensures
        added_count(ls, rs, n) == added_positions(ls, rs, n).len(),
        removed_count(ls, rs, n) == removed_positions(ls, rs, n).len(),
    decreases n,
{
    reveal(Seq::filter);
    if n > 0 {
        lemma_diff_counts_by_line(ls, rs, (n - 1) as nat);
        let idx = Seq::new(n, |i: int| i);
        assert(idx.drop_last() =~= Seq::new((n - 1) as nat, |i: int| i));
        assert(idx.last() == n - 1);
    }
}

pub open spec fn max_nat(a: nat, b: nat) -> nat {
    if a >= b {
        a
    } else {
        b
    }
}

pub open spec fn diff_header(left_name: Seq<char>, right_name: Seq<char>) -> Seq<char> {
    "--- "@ + left_name + "\n+++ "@ + right_name + "\n"@
}

/// A position-by-position diff of the lines of `left` and `right` under a
/// header naming both; identical texts give the header alone.
pub open spec fn line_diff_text(left_name: Seq<char>, right_name: Seq<char>, left: Seq<char>, right: Seq<char>) -> Seq<char> {
    if left == right {
        diff_header(left_name, right_name)
    } else {
        let ls = lines(left);
        let rs = lines(right);
        diff_header(left_name, right_name) + diff_body(ls, rs, max_nat(ls.len(), rs.len()))
    }
}

/// The number of lines the diff of two texts changes: added plus removed.
pub open spec fn changed_count(left: Seq<char>, right: Seq<char>) -> nat {
    let ls = lines(left);
    let rs = lines(right);
    let n = max_nat(ls.len(), rs.len());
    added_count(ls, rs, n) + removed_count(ls, rs, n)
}

proof fn lemma_counts_bounded(ls: Seq<Seq<char>>, rs: Seq<Seq<char>>, n: nat)
    ensures
        added_count(ls, rs, n) <= n,
        removed_count(ls, rs, n) <= n,
        added_count(ls, rs, n) <= rs.len(),
        removed_count(ls, rs, n) <= ls.len(),
    decreases n,
{
    if n > 0 {
        lemma_counts_bounded(ls, rs, (n - 1) as nat);
    }
}

/// The line diff of two role documents (see [`line_diff_text`]), with the
/// number of added, removed and changed (added plus removed) lines.
pub fn line_diff(left_name: &str, right_name: &str, left: &str, right: &str) -> (r: (String, DiffStats))
    requires
        lines(left@).len() + lines(right@).len() <= usize::MAX,
    ensures
        r.0@ == line_diff_text(left_name@, right_name@, left@, right@),
        r.1.identical == (left@ == right@),
        left@ != right@ ==> ({
            let ls = lines(left@);
            let rs = lines(right@);
            let n = max_nat(ls.len(), rs.len());
            &&& r.1.added_lines == added_count(ls, rs, n)
            &&& r.1.removed_lines == removed_count(ls, rs, n)
            &&& r.1.changed_lines == r.1.added_lines + r.1.removed_lines
        }),
        left@ == right@ ==> r.1.added_lines == 0 && r.1.removed_lines == 0 && r.1.changed_lines == 0,
{
    let lv = chars_of(left);
    let rv = chars_of(right);
    let ll = lines_of(&lv);
    let rl = lines_of(&rv);
    assert(char_views(ll@).len() == ll@.len());
    assert(char_views(rl@).len() == rl@.len());
    let mut diff: Vec<char> = Vec::new();
    append_str(&mut diff, "--- ");
    append_str(&mut diff, left_name);
    append_str(&mut diff, "\n+++ ");
    append_str(&mut diff, right_name);
    append_str(&mut diff, "\n");
    assert(diff@ =~= diff_header(left_name@, right_name@));
    if str_eq(left, right) {
        return (
            string_of(&diff),
            DiffStats { added_lines: 0, removed_lines: 0, changed_lines: 0, identical: true },
        );
    }
    let ghost ls = char_views(ll@);
    let ghost rs = char_views(rl@);
    let max = if ll.len() >= rl.len() {
        ll.len()
    } else {
        rl.len()
    };
    let mut added: usize = 0;
    let mut removed: usize = 0;
    let mut i: usize = 0;
    while i < max
        invariant
            i <= max,
            max == max_nat(ls.len(), rs.len()),
            ls == char_views(ll@),
            rs == char_views(rl@),
            diff@ == diff_header(left_name@, right_name@) + diff_body(ls, rs, i as nat),
            added == added_count(ls, rs, i as nat),
            removed == removed_count(ls, rs, i as nat),
        decreases max - i,
    {
        proof {
            lemma_counts_bounded(ls, rs, i as nat);
        }
        let ghost before = diff@;
        if i < ll.len() && i < rl.len() {
            assert(ls[i as int] == ll@[i as int]@);
            assert(rs[i as int] == rl@[i as int]@);
            if seq_eq(&ll[i], &rl[i]) {
                diff.push(' ');
                append_chars(&mut diff, &ll[i]);
                diff.push('\n');
            } else {
                removed = removed + 1;
                added = added + 1;
                diff.push('-');
                append_chars(&mut diff, &ll[i]);
                diff.push('\n');
                diff.push('+');
                append_chars(&mut diff, &rl[i]);
                diff.push('\n');
            }
        } else if i < ll.len() {
            assert(ls[i as int] == ll@[i as int]@);
            removed = removed + 1;
            diff.push('-');
            append_chars(&mut diff, &ll[i]);
            diff.push('\n');
        } else {
            assert(rs[i as int] == rl@[i as int]@);
            added = added + 1;
            diff.push('+');
            append_chars(&mut diff, &rl[i]);
            diff.push('\n');
        }
        assert(diff@ =~= before + diff_piece(ls, rs, i as int));
        i = i + 1;
    }
    proof {
        lemma_counts_bounded(ls, rs, i as nat);
    }
    let changed = added + removed;
    (
        string_of(&diff),
        DiffStats { added_lines: added, removed_lines: removed, changed_lines: changed, identical: false },
    )
}

// ---------------------------------------------------------------------------
// Prompts, variants and attempts.

/// One prompt of a prompt suite.
#[derive(Debug)]
pub struct PromptCase {
    pub id: String,
    pub title: String,
    pub prompt: String,
    pub tags: Vec<String>,
    pub expected_behaviors: Vec<String>,
    /// Line of the suite file the prompt is on.
    pub line: usize,
}

/// The metadata of a variant.
#[derive(Debug)]
pub struct VariantMetadata {
    pub schema_version: u32,
    pub name: String,
    pub source_agent: String,
    pub agent_name: String,
    pub matrix_path: String,
    pub role_path: String,
    pub role_sha256: String,
    pub created_at: String,
    pub updated_at: String,
}

/// One attempt of a run: a prompt given to a variant, once.
#[derive(Debug)]
pub struct AttemptArtifact {
    pub schema_version: u32,
    pub attempt_id: String,
    pub run_id: String,
    pub prompt_id: String,
    pub prompt_title: String,
    pub prompt_line: usize,
    pub variant: String,
    pub agent_name: String,
    pub replicate: u32,
    pub status: String,
    pub tags: Vec<String>,
    pub expected_behaviors: Vec<String>,
    pub duration_ms: Option<u64>,
    pub messages: Option<usize>,
    pub flags: Vec<String>,
    pub transcript_path: Option<String>,
    pub session_id: Option<String>,
    pub workgroup: Option<String>,
    pub replica_root: Option<String>,
    pub prompt_path: Option<String>,
    pub output_path: Option<String>,
    pub started_at: Option<String>,
    pub completed_at: Option<String>,
    pub exit_code: Option<i32>,
    pub provider: Option<String>,
    pub provider_transcript_path: Option<String>,
    pub attempt_generation: u32,
    pub failure_reason: Option<String>,
}

/// The id of an attempt: prompt, variant and replicate.
pub open spec fn attempt_id_spec(prompt: Seq<char>, variant: Seq<char>, rep: nat) -> Seq<char> {
    prompt + "__"@ + variant + "__r"@ + decimal(rep)
}

/// `a` is the planned attempt of `run_id` for prompt `p`, variant `v` and
/// replicate `rep`: its ids, prompt and variant fields copied, status
/// `planned`, generation 1, and nothing recorded yet.
pub open spec fn planned_attempt(a: AttemptArtifact, run_id: Seq<char>, p: PromptCase, v: VariantMetadata, rep: u32) -> bool {
    &&& a.schema_version == 1
    &&& a.attempt_id@ == attempt_id_spec(p.id@, v.name@, rep as nat)
    &&& a.run_id@ == run_id
    &&& a.prompt_id@ == p.id@
    &&& a.prompt_title@ == p.title@
    &&& a.prompt_line == p.line
    &&& a.variant@ == v.name@
    &&& a.agent_name@ == v.agent_name@
    &&& a.replicate == rep
    &&& a.status@ == "planned"@
    &&& views(a.tags@) == views(p.tags@)
    &&& views(a.expected_behaviors@) == views(p.expected_behaviors@)
    &&& a.duration_ms is None && a.messages is None && a.flags@.len() == 0
    &&& a.transcript_path is None && a.session_id is None && a.workgroup is None
    &&& a.replica_root is None && a.prompt_path is None && a.output_path is None
    &&& a.started_at is None && a.completed_at is None && a.exit_code is None
    &&& a.provider is None && a.provider_transcript_path is None
    &&& a.attempt_generation == 1 && a.failure_reason is None
}

/// The position, in the planned attempts, of prompt `pi`, variant `vi` and
/// replicate `rep`: prompt by prompt, then variant by variant, then
/// replicate by replicate.
pub open spec fn attempt_index(pi: int, vi: int, rep: int, nv: int, nr: int) -> int {
    (pi * nv + vi) * nr + (rep - 1)
}

fn plan_one(run_id: &str, p: &PromptCase, v: &VariantMetadata, rep: u32) -> (a: AttemptArtifact)
    ensures
        planned_attempt(a, run_id@, *p, *v, rep),
{
    let mut id: Vec<char> = Vec::new();
    append_str(&mut id, p.id.as_str());
    append_str(&mut id, "__");
    append_str(&mut id, v.name.as_str());
    append_str(&mut id, "__r");
    push_decimal(&mut id, rep as u64);
    AttemptArtifact {
        schema_version: 1,
        attempt_id: string_of(&id),
        run_id: owned(run_id),
        prompt_id: p.id.clone(),
        prompt_title: p.title.clone(),
        prompt_line: p.line,
        variant: v.name.clone(),
        agent_name: v.agent_name.clone(),
        replicate: rep,
        status: owned("planned"),
        tags: crate::text::clone_strings(&p.tags),
        expected_behaviors: crate::text::clone_strings(&p.expected_behaviors),
        duration_ms: None,
        messages: None,
        flags: Vec::new(),
        transcript_path: None,
        session_id: None,
        workgroup: None,
        replica_root: None,
        prompt_path: None,
        output_path: None,
        started_at: None,
        completed_at: None,
        exit_code: None,
        provider: None,
        provider_transcript_path: None,
        attempt_generation: 1,
        failure_reason: None,
    }
}

/// The planned attempts of a run: for each prompt, each variant, each
/// replicate from 1, one planned attempt, in that order.
pub fn build_attempts(run_id: &str, prompts: &Vec<PromptCase>, variants: &Vec<VariantMetadata>, replicates: u32) -> (out: Vec<AttemptArtifact>)
    ensures
        out@.len() == prompts@.len() * variants@.len() * replicates,
        forall|pi: int, vi: int, rep: int|
            0 <= pi < prompts@.len() && 0 <= vi < variants@.len() && 1 <= rep <= replicates
                ==> #[trigger] planned_attempt(
                out@[attempt_index(pi, vi, rep, variants@.len() as int, replicates as int)],
                run_id@,
                prompts@[pi],
                variants@[vi],
                rep as u32,
            ),
{
    let nv = variants.len();
    let nr = replicates;
    let mut out: Vec<AttemptArtifact> = Vec::new();
    let mut pi: usize = 0;
    assert(0 * nv * nr == 0) by (nonlinear_arith);
    while pi < prompts.len()
        invariant
            pi <= prompts@.len(),
            nv == variants@.len(),
            nr == replicates,
            out@.len() == pi * nv * nr,
            forall|a: int, b: int, c: int|
                0 <= a < pi && 0 <= b < nv && 1 <= c <= nr ==> #[trigger] planned_attempt(
                    out@[attempt_index(a, b, c, nv as int, nr as int)],
                    run_id@,
                    prompts@[a],
                    variants@[b],
                    c as u32,
                ),
        decreases prompts@.len() - pi,
    {
        let mut vi: usize = 0;
        while vi < variants.len()
            invariant
                pi < prompts@.len(),
                vi <= nv,
                nv == variants@.len(),
                nr == replicates,
                out@.len() == (pi * nv + vi) * nr,
                forall|a: int, b: int, c: int|
                    (0 <= a < pi && 0 <= b < nv && 1 <= c <= nr) || (a == pi && 0 <= b < vi && 1 <= c <= nr)
                        ==> #[trigger] planned_attempt(
                        out@[attempt_index(a, b, c, nv as int, nr as int)],
                        run_id@,
                        prompts@[a],
                        variants@[b],
                        c as u32,
                    ),
            decreases nv - vi,
        {
            let mut rep: u64 = 1;
            while rep <= replicates as u64
                invariant
                    pi < prompts@.len(),
                    vi < nv,
                    nv == variants@.len(),
                    nr == replicates,
                    1 <= rep,
                    rep <= nr + 1,
                    out@.len() == (pi * nv + vi) * nr + (rep - 1),
                    forall|a: int, b: int, c: int|
                        (0 <= a < pi && 0 <= b < nv && 1 <= c <= nr) || (a == pi && 0 <= b < vi && 1
                            <= c <= nr) || (a == pi && b == vi && 1 <= c < rep) ==> #[trigger] planned_attempt(
                            out@[attempt_index(a, b, c, nv as int, nr as int)],
                            run_id@,
                            prompts@[a],
                            variants@[b],
                            c as u32,
                        ),
                decreases nr + 1 - rep,
            {
                let a = plan_one(run_id, &prompts[pi], &variants[vi], rep as u32);
                proof {
                    assert(attempt_index(pi as int, vi as int, rep as int, nv as int, nr as int)
                        == out@.len());
                    assert forall|x: int, y: int, z: int|
                        (0 <= x < pi && 0 <= y < nv && 1 <= z <= nr) || (x == pi && 0 <= y < vi && 1
                            <= z <= nr) || (x == pi && y == vi && 1 <= z < rep) implies attempt_index(
                        x,
                        y,
                        z,
                        nv as int,
                        nr as int,
                    ) < out@.len() by {
                        lemma_index_order(x, y, z, pi as int, vi as int, rep as int, nv as int, nr as int);
                    }
                }
                out.push(a);
                rep = rep + 1;
            }
            proof {
                assert((pi * nv + vi) * nr + nr == (pi * nv + vi + 1) * nr) by (nonlinear_arith);
            }
            vi = vi + 1;
        }
        proof {
            assert((pi * nv + nv) * nr == (pi + 1) * nv * nr) by (nonlinear_arith);
        }
        pi = pi + 1;
    }
    out
}

proof fn lemma_index_order(x: int, y: int, z: int, pi: int, vi: int, rep: int, nv: int, nr: int)
    requires
        0 <= vi < nv,
        1 <= rep <= nr + 1,
        0 <= pi,
        (0 <= x < pi && 0 <= y < nv && 1 <= z <= nr) || (x == pi && 0 <= y < vi && 1 <= z <= nr) || (
        x == pi && y == vi && 1 <= z < rep),
    ensures
        attempt_index(x, y, z, nv, nr) < attempt_index(pi, vi, rep, nv, nr),
        0 <= attempt_index(x, y, z, nv, nr),
{
    assert(0 <= attempt_index(x, y, z, nv, nr)) by (nonlinear_arith)
        requires
            0 <= x, 0 <= y, 1 <= z, 0 <= nv, 0 <= nr;
    if x < pi {
        assert(attempt_index(x, y, z, nv, nr) < attempt_index(pi, vi, rep, nv, nr)) by (nonlinear_arith)
            requires
                0 <= x < pi, 0 <= y < nv, 1 <= z <= nr, 0 <= vi, 1 <= rep;
    } else if y < vi {
        assert(attempt_index(x, y, z, nv, nr) < attempt_index(pi, vi, rep, nv, nr)) by (nonlinear_arith)
            requires
                x == pi, 0 <= y < vi, 1 <= z <= nr, 1 <= rep;
    }
}

// ---------------------------------------------------------------------------
// Status counts.

/// The statuses an attempt can have, in report order.
pub open spec fn attempt_statuses() -> Seq<Seq<char>> {
    seq!["planned"@, "running"@, "completed"@, "failed"@, "timed_out"@, "inconclusive"@, "cancelled"@]
}

/// Which attempts a count covers.
pub enum Scope {
    All,
    Variant(Seq<char>),
    Prompt(Seq<char>),
}

pub open spec fn in_scope(a: AttemptArtifact, scope: Scope) -> bool {
    match scope {
        Scope::All => true,
        Scope::Variant(v) => a.variant@ == v,
        Scope::Prompt(p) => a.prompt_id@ == p,
    }
}

/// How many attempts in `scope` have `status`.
pub open spec fn tally(attempts: Seq<AttemptArtifact>, status: Seq<char>, scope: Scope) -> nat
    decreases attempts.len(),
{
    if attempts.len() == 0 {
        0
    } else {
        tally(attempts.drop_last(), status, scope) + if in_scope(attempts.last(), scope)
            && attempts.last().status@ == status {
            1nat
        } else {
            0nat
        }
    }
}

/// The seven statuses are distinct texts.
proof fn lemma_statuses_distinct()
    ensures
        forall|i: int, j: int|
            0 <= i < j < 7 ==> #[trigger] attempt_statuses()[i] != #[trigger] attempt_statuses()[j],
{
    reveal_strlit("planned");
    reveal_strlit("running");
    reveal_strlit("completed");
    reveal_strlit("failed");
    reveal_strlit("timed_out");
    reveal_strlit("inconclusive");
    reveal_strlit("cancelled");
    let s = attempt_statuses();
    assert(s[0][0] == 'p' && s[1][0] == 'r' && s[2][0] == 'c' && s[3][0] == 'f');
    assert(s[4][0] == 't' && s[5][0] == 'i' && s[6][0] == 'c');
    assert(s[2][1] == 'o' && s[6][1] == 'a');
}

proof fn lemma_tally_bounded(attempts: Seq<AttemptArtifact>, status: Seq<char>, scope: Scope)
    ensures
        tally(attempts, status, scope) <= attempts.len(),
    decreases attempts.len(),
{
    if attempts.len() > 0 {
        lemma_tally_bounded(attempts.drop_last(), status, scope);
    }
}

/// The counts of a run's attempts.
#[derive(Debug)]
pub struct ReportSummaryArtifact {
    pub prompt_count: usize,
    pub variant_count: usize,
    pub replicates: u32,
    pub attempt_count: usize,
    pub planned_attempt_count: usize,
    pub running_attempt_count: usize,
    pub completed_attempt_count: usize,
    pub failed_attempt_count: usize,
    pub timed_out_attempt_count: usize,
    pub inconclusive_attempt_count: usize,
    pub cancelled_attempt_count: usize,
}

/// Seven status counts, in report order.
#[derive(Debug, Clone, Copy)]
pub struct StatusCounts {
    pub planned: usize,
    pub running: usize,
    pub completed: usize,
    pub failed: usize,
    pub timed_out: usize,
    pub inconclusive: usize,
    pub cancelled: usize,
}

pub open spec fn counts_of(c: StatusCounts, attempts: Seq<AttemptArtifact>, scope: Scope) -> bool {
    &&& c.planned == tally(attempts, "planned"@, scope)
    &&& c.running == tally(attempts, "running"@, scope)
    &&& c.completed == tally(attempts, "completed"@, scope)
    &&& c.failed == tally(attempts, "failed"@, scope)
    &&& c.timed_out == tally(attempts, "timed_out"@, scope)
    &&& c.inconclusive == tally(attempts, "inconclusive"@, scope)
    &&& c.cancelled == tally(attempts, "cancelled"@, scope)
}

fn scope_holds(a: &AttemptArtifact, variant: Option<&str>, prompt: Option<&str>) -> (r: bool)
    ensures
        r == in_scope(*a, scope_of(variant, prompt)),
{
    match variant {
        Some(v) => str_eq(a.variant.as_str(), v),
        None => match prompt {
            Some(p) => str_eq(a.prompt_id.as_str(), p),
            None => true,
        },
    }
}

pub open spec fn scope_of(variant: Option<&str>, prompt: Option<&str>) -> Scope {
    match variant {
        Some(v) => Scope::Variant(v@),
        None => match prompt {
            Some(p) => Scope::Prompt(p@),
            None => Scope::All,
        },
    }
}

/// The status counts of the attempts in a scope: those of `variant` when
/// given, else those of `prompt` when given, else all.
fn tally_statuses(attempts: &Vec<AttemptArtifact>, variant: Option<&str>, prompt: Option<&str>) -> (c: StatusCounts)
    ensures
        counts_of(c, attempts@, scope_of(variant, prompt)),
{
    let ghost scope = scope_of(variant, prompt);
    let mut c = StatusCounts {
        planned: 0,
        running: 0,
        completed: 0,
        failed: 0,
        timed_out: 0,
        inconclusive: 0,
        cancelled: 0,
    };
    let mut i: usize = 0;
    while i < attempts.len()
        invariant
            i <= attempts@.len(),
            scope == scope_of(variant, prompt),
            counts_of(c, attempts@.take(i as int), scope),
        decreases attempts@.len() - i,
    {
        let a = &attempts[i];
        let ghost t = attempts@.take(i + 1);
        assert(t.drop_last() =~= attempts@.take(i as int));
        assert(t.last() == attempts@[i as int]);
        proof {
            lemma_tally_bounded(attempts@.take(i as int), "planned"@, scope);
            lemma_tally_bounded(attempts@.take(i as int), "running"@, scope);
            lemma_tally_bounded(attempts@.take(i as int), "completed"@, scope);
            lemma_tally_bounded(attempts@.take(i as int), "failed"@, scope);
            lemma_tally_bounded(attempts@.take(i as int), "timed_out"@, scope);
            lemma_tally_bounded(attempts@.take(i as int), "inconclusive"@, scope);
            lemma_tally_bounded(attempts@.take(i as int), "cancelled"@, scope);
            lemma_statuses_distinct();
            let st = attempt_statuses();
            assert(st[0] == "planned"@ && st[1] == "running"@ && st[2] == "completed"@);
            assert(st[3] == "failed"@ && st[4] == "timed_out"@ && st[5] == "inconclusive"@);
            assert(st[6] == "cancelled"@);
        }
        if scope_holds(a, variant, prompt) {
            let st = a.status.as_str();
            if str_eq(st, "planned") {
                c.planned = c.planned + 1;
            } else if str_eq(st, "running") {
                c.running = c.running + 1;
            } else if str_eq(st, "completed") {
                c.completed = c.completed + 1;
            } else if str_eq(st, "failed") {
                c.failed = c.failed + 1;
            } else if str_eq(st, "timed_out") {
                c.timed_out = c.timed_out + 1;
            } else if str_eq(st, "inconclusive") {
                c.inconclusive = c.inconclusive + 1;
            } else if str_eq(st, "cancelled") {
                c.cancelled = c.cancelled + 1;
            }
        }
        i = i + 1;
    }
    assert(attempts@.take(i as int) =~= attempts@);
    c
}

/// The counts of a run: the sizes given and, over `attempts`, how many there
/// are and how many have each status; other statuses count for no status.
pub fn count_attempt_statuses(prompt_count: usize, variant_count: usize, replicates: u32, attempts: &Vec<AttemptArtifact>) -> (r: ReportSummaryArtifact)
    ensures
        r.prompt_count == prompt_count,
        r.variant_count == variant_count,
        r.replicates == replicates,
        r.attempt_count == attempts@.len(),
        r.planned_attempt_count == tally(attempts@, "planned"@, Scope::All),
        r.running_attempt_count == tally(attempts@, "running"@, Scope::All),
        r.completed_attempt_count == tally(attempts@, "completed"@, Scope::All),
        r.failed_attempt_count == tally(attempts@, "failed"@, Scope::All),
        r.timed_out_attempt_count == tally(attempts@, "timed_out"@, Scope::All),
        r.inconclusive_attempt_count == tally(attempts@, "inconclusive"@, Scope::All),
        r.cancelled_attempt_count == tally(attempts@, "cancelled"@, Scope::All),
{
    let c = tally_statuses(attempts, None, None);
    ReportSummaryArtifact {
        prompt_count,
        variant_count,
        replicates,
        attempt_count: attempts.len(),
        planned_attempt_count: c.planned,
        running_attempt_count: c.running,
        completed_attempt_count: c.completed,
        failed_attempt_count: c.failed,
        timed_out_attempt_count: c.timed_out,
        inconclusive_attempt_count: c.inconclusive,
        cancelled_attempt_count: c.cancelled,
    }
}

pub open spec fn has_status(attempts: Seq<AttemptArtifact>, status: Seq<char>) -> bool {
    exists|i: int| 0 <= i < attempts.len() && #[trigger] attempts[i].status@ == status
}

/// The status of a run: `dry_run` for a dry run; otherwise the first of
/// running, failed, timed out, inconclusive and cancelled that some attempt
/// has; otherwise completed.
pub open spec fn run_status_spec(attempts: Seq<AttemptArtifact>, dry_run: bool) -> Seq<char> {
    if dry_run {
        "dry_run"@
    } else if has_status(attempts, "running"@) {
        "running"@
    } else if has_status(attempts, "failed"@) {
        "failed"@
    } else if has_status(attempts, "timed_out"@) {
        "timed_out"@
    } else if has_status(attempts, "inconclusive"@) {
        "inconclusive"@
    } else if has_status(attempts, "cancelled"@) {
        "cancelled"@
    } else {
        "completed"@
    }
}

fn any_status(attempts: &Vec<AttemptArtifact>, status: &str) -> (r: bool)
    ensures
        r == has_status(attempts@, status@),
{
    let mut i: usize = 0;
    while i < attempts.len()
        invariant
            i <= attempts@.len(),
            forall|k: int| 0 <= k < i ==> attempts@[k].status@ != status@,
        decreases attempts@.len() - i,
    {
        if str_eq(attempts[i].status.as_str(), status) {
            return true;
        }
        i = i + 1;
    }
    false
}

/// The status of a run (see [`run_status_spec`]).
pub fn summarize_run_status(attempts: &Vec<AttemptArtifact>, dry_run: bool) -> (out: String)
    ensures
        out@ == run_status_spec(attempts@, dry_run),
{
    if dry_run {
        return owned("dry_run");
    }
    if any_status(attempts, "running") {
        return owned("running");
    }
    if any_status(attempts, "failed") {
        return owned("failed");
    }
    if any_status(attempts, "timed_out") {
        return owned("timed_out");
    }
    if any_status(attempts, "inconclusive") {
        return owned("inconclusive");
    }
    if any_status(attempts, "cancelled") {
        return owned("cancelled");
    }
    owned("completed")
}

/// The total of the seven status counts of a summary.
pub open spec fn status_total(s: ReportSummaryArtifact) -> int {
    s.planned_attempt_count + s.running_attempt_count + s.completed_attempt_count
        + s.failed_attempt_count + s.timed_out_attempt_count + s.inconclusive_attempt_count
        + s.cancelled_attempt_count
}

/// The total of the seven status counts of a summary.
pub fn report_status_total(summary: &ReportSummaryArtifact) -> (r: usize)
    requires
        status_total(*summary) <= usize::MAX,
    ensures
        r == status_total(*summary),
{
    summary.planned_attempt_count + summary.running_attempt_count + summary.completed_attempt_count
        + summary.failed_attempt_count + summary.timed_out_attempt_count
        + summary.inconclusive_attempt_count + summary.cancelled_attempt_count
}

/// Each status counted at most once: the status counts of a summary built
/// from attempts never add up to more than the attempts.
pub proof fn lemma_status_counts_within_attempts(attempts: Seq<AttemptArtifact>, scope: Scope)
    ensures
        tally(attempts, "planned"@, scope) + tally(attempts, "running"@, scope) + tally(
            attempts,
            "completed"@,
            scope,
        ) + tally(attempts, "failed"@, scope) + tally(attempts, "timed_out"@, scope) + tally(
            attempts,
            "inconclusive"@,
            scope,
        ) + tally(attempts, "cancelled"@, scope) <= attempts.len(),
    decreases attempts.len(),
{
    lemma_statuses_distinct();
    let st = attempt_statuses();
    assert(st[0] == "planned"@ && st[1] == "running"@ && st[2] == "completed"@);
    assert(st[3] == "failed"@ && st[4] == "timed_out"@ && st[5] == "inconclusive"@);
    assert(st[6] == "cancelled"@);
    if attempts.len() > 0 {
        lemma_status_counts_within_attempts(attempts.drop_last(), scope);
    }
}

/// The seven status counts of the attempts in `scope`, added up.
pub open spec fn status_sum(attempts: Seq<AttemptArtifact>, scope: Scope) -> nat {
    tally(attempts, "planned"@, scope) + tally(attempts, "running"@, scope) + tally(attempts, "completed"@, scope)
        + tally(attempts, "failed"@, scope) + tally(attempts, "timed_out"@, scope) + tally(
        attempts,
        "inconclusive"@,
        scope,
    ) + tally(attempts, "cancelled"@, scope)
}

/// A status is one of the seven a report counts.
pub open spec fn status_known(status: Seq<char>) -> bool {
    attempt_statuses().contains(status)
}

/// The seven status counts of all attempts add up to the number of attempts
/// exactly when every attempt has one of the seven statuses.
pub proof fn lemma_status_total_exact(attempts: Seq<AttemptArtifact>)
    ensures
        (status_sum(attempts, Scope::All) == attempts.len()) <==> (forall|i: int|
            0 <= i < attempts.len() ==> status_known(#[trigger] attempts[i].status@)),
    decreases attempts.len(),
{
    lemma_statuses_distinct();
    lemma_status_counts_within_attempts(attempts, Scope::All);
    let st = attempt_statuses();
    assert(st[0] == "planned"@ && st[1] == "running"@ && st[2] == "completed"@);
    assert(st[3] == "failed"@ && st[4] == "timed_out"@ && st[5] == "inconclusive"@);
    assert(st[6] == "cancelled"@);
    if attempts.len() > 0 {
        let init = attempts.drop_last();
        let x = attempts.last().status@;
        lemma_status_total_exact(init);
        lemma_status_counts_within_attempts(init, Scope::All);
        assert(status_known(x) <==> (x == st[0] || x == st[1] || x == st[2] || x == st[3] || x == st[4]
            || x == st[5] || x == st[6])) by {
            if status_known(x) {
                let k = choose|k: int| 0 <= k < st.len() && st[k] == x;
                assert(0 <= k < 7);
            }
            if x == st[0] { assert(st[0] == x); }
            if x == st[1] { assert(st[1] == x); }
            if x == st[2] { assert(st[2] == x); }
            if x == st[3] { assert(st[3] == x); }
            if x == st[4] { assert(st[4] == x); }
            if x == st[5] { assert(st[5] == x); }
            if x == st[6] { assert(st[6] == x); }
        }
        assert(status_sum(attempts, Scope::All) == status_sum(init, Scope::All) + if status_known(x) {
            1nat
        } else {
            0nat
        });
        assert forall|i: int| 0 <= i < init.len() implies init[i] == attempts[i] by {}
        if status_sum(attempts, Scope::All) == attempts.len() {
            assert forall|i: int| 0 <= i < attempts.len() implies status_known(#[trigger] attempts[i].status@) by {
                if i < init.len() {
                    assert(init[i] == attempts[i]);
                }
            }
        }
        if forall|i: int| 0 <= i < attempts.len() ==> status_known(#[trigger] attempts[i].status@) {
            assert forall|i: int| 0 <= i < init.len() implies status_known(#[trigger] init[i].status@) by {
                assert(init[i] == attempts[i]);
                assert(status_known(attempts[i].status@));
            }
            assert(status_known(attempts[attempts.len() - 1].status@));
        }
    }
}

// ---------------------------------------------------------------------------
// Notes and cells.

/// Where a run's workgroup is.
#[derive(Debug)]
pub struct RunWorkgroupArtifact {
    pub name: String,
    pub path: String,
    pub retained: bool,
    pub cleanup_supported: bool,
    pub run_id: String,
    pub experiment: String,
}

/// The notes of a report: what a dry run did not do; for a real run, where
/// its workgroup was kept (when known) and what it did not do.
pub open spec fn notes_spec(dry_run: bool, workgroup: Option<Seq<char>>) -> Seq<Seq<char>> {
    if dry_run {
        seq![
            "Dry-run report contains planned attempts only."@,
            "No sessions, messages, transcripts, scoring, or winner selection were produced."@,
        ]
    } else {
        (match workgroup {
            Some(p) => seq!["Run workgroup retained at "@ + p + "."@],
            None => Seq::<Seq<char>>::empty(),
        }) + seq!["Transcript capture is best-effort."@, "No scoring or winner selection performed."@]
    }
}

/// The notes of a report (see [`notes_spec`]).
pub fn report_notes(dry_run: bool, workgroup: Option<&RunWorkgroupArtifact>) -> (out: Vec<String>)
    ensures
        views(out@) == notes_spec(
            dry_run,
            match workgroup {
                Some(w) => Some(w.path@),
                None => None,
            },
        ),
{
    let mut out: Vec<String> = Vec::new();
    if dry_run {
        out.push(owned("Dry-run report contains planned attempts only."));
        out.push(owned("No sessions, messages, transcripts, scoring, or winner selection were produced."));
        assert(views(out@) =~= notes_spec(dry_run, None));
        return out;
    }
    if let Some(w) = workgroup {
        let mut v: Vec<char> = Vec::new();
        append_str(&mut v, "Run workgroup retained at ");
        append_str(&mut v, w.path.as_str());
        append_str(&mut v, ".");
        out.push(string_of(&v));
    }
    out.push(owned("Transcript capture is best-effort."));
    out.push(owned("No scoring or winner selection performed."));
    assert(views(out@) =~= notes_spec(
        dry_run,
        match workgroup {
            Some(w) => Some(w.path@),
            None => None,
        },
    ));
    out
}

/// A value as a markdown table cell: backslashes doubled, pipes escaped,
/// line breaks turned into spaces.
pub open spec fn table_cell_spec(s: Seq<char>) -> Seq<char>
    decreases s.len(),
{
    if s.len() == 0 {
        s
    } else {
        let c = s.last();
        table_cell_spec(s.drop_last()) + if c == '\\' {
            seq!['\\', '\\']
        } else if c == '|' {
            seq!['\\', '|']
        } else if c == '\r' || c == '\n' {
            seq![' ']
        } else {
            seq![c]
        }
    }
}

/// A value as a markdown table cell (see [`table_cell_spec`]).
pub fn markdown_table_cell(value: &str) -> (out: String)
    ensures
        out@ == table_cell_spec(value@),
{
    let v = chars_of(value);
    let mut out: Vec<char> = Vec::new();
    let mut i: usize = 0;
    while i < v.len()
        invariant
            i <= v@.len(),
            out@ == table_cell_spec(v@.take(i as int)),
        decreases v@.len() - i,
    {
        let c = v[i];
        let ghost before = out@;
        if c == '\\' {
            out.push('\\');
            out.push('\\');
        } else if c == '|' {
            out.push('\\');
            out.push('|');
        } else if c == '\r' || c == '\n' {
            out.push(' ');
        } else {
            out.push(c);
        }
        assert(v@.take(i + 1).drop_last() =~= v@.take(i as int));
        assert(out@ =~= table_cell_spec(v@.take(i + 1)));
        i = i + 1;
    }
    assert(v@.take(i as int) =~= v@);
    string_of(&out)
}

// ---------------------------------------------------------------------------
// Fake executor.

/// What the fake executor did with an attempt.
#[derive(Debug)]
pub struct AttemptExecutionResult {
    pub attempt_id: String,
    pub status: String,
    pub duration_ms: Option<u64>,
    pub transcript_path: Option<String>,
    pub provider_transcript_path: Option<String>,
    pub output_path: Option<String>,
    pub failure_reason: Option<String>,
    pub exit_code: Option<i32>,
    pub flags: Vec<String>,
}

/// The outcome the fake executor reports for a provider name: the named
/// failure, timeout or inconclusive outcome (status, reason), or completed.
pub open spec fn fake_outcome(provider: Seq<char>) -> (Seq<char>, Option<Seq<char>>) {
    if provider == "fake-failed"@ {
        ("failed"@, Some("fake_executor_failure"@))
    } else if provider == "fake-timed-out"@ {
        ("timed_out"@, Some("fake_executor_timeout"@))
    } else if provider == "fake-no-activity"@ {
        ("inconclusive"@, Some("no_provider_activity_after_injection"@))
    } else if provider == "fake-unexpected-shell"@ {
        ("inconclusive"@, Some("unexpected_shell"@))
    } else {
        ("completed"@, None)
    }
}

/// The fake executor's result for an attempt: the outcome of the provider
/// (see [`fake_outcome`]), the reason also as its only flag, no time spent,
/// the output at `output_path`.
pub fn fake_attempt_result(provider: &str, attempt: &AttemptArtifact, output_path: &str) -> (r: AttemptExecutionResult)
    ensures
        r.attempt_id@ == attempt.attempt_id@,
        r.status@ == fake_outcome(provider@).0,
        match fake_outcome(provider@).1 {
            Some(reason) => r.failure_reason is Some && r.failure_reason->0@ == reason && views(r.flags@)
                == seq![reason],
            None => r.failure_reason is None && r.flags@.len() == 0,
        },
        r.duration_ms == Some(0u64),
        r.transcript_path is None && r.provider_transcript_path is None && r.exit_code is None,
        r.output_path is Some && r.output_path->0@ == output_path@,
{
    let (status, reason): (&str, Option<&str>) = if str_eq(provider, "fake-failed") {
        ("failed", Some("fake_executor_failure"))
    } else if str_eq(provider, "fake-timed-out") {
        ("timed_out", Some("fake_executor_timeout"))
    } else if str_eq(provider, "fake-no-activity") {
        ("inconclusive", Some("no_provider_activity_after_injection"))
    } else if str_eq(provider, "fake-unexpected-shell") {
        ("inconclusive", Some("unexpected_shell"))
    } else {
        ("completed", None)
    };
    let mut flags: Vec<String> = Vec::new();
    let failure_reason = match reason {
        Some(rs) => {
            flags.push(owned(rs));
            assert(views(flags@) =~= seq![rs@]);
            Some(owned(rs))
        },
        None => None,
    };
    AttemptExecutionResult {
        attempt_id: attempt.attempt_id.clone(),
        status: owned(status),
        duration_ms: Some(0),
        transcript_path: None,
        provider_transcript_path: None,
        output_path: Some(owned(output_path)),
        failure_reason,
        exit_code: None,
        flags,
    }
}

/// The text the fake executor writes as an attempt's output.
pub open spec fn fake_output_spec(r: AttemptExecutionResult, started_at: Seq<char>, completed_at: Seq<char>) -> Seq<char> {
    "attemptId: "@ + r.attempt_id@ + "\nstatus: "@ + r.status@ + "\nstartedAt: "@ + started_at
        + "\ncompletedAt: "@ + completed_at + "\nflags: "@ + join(views(r.flags@), ","@)
        + "\nfailureReason: "@ + (match r.failure_reason {
        Some(f) => f@,
        None => Seq::<char>::empty(),
    }) + "\n"@
}

/// The text the fake executor writes as an attempt's output.
pub fn fake_output_text(result: &AttemptExecutionResult, started_at: &str, completed_at: &str) -> (out: String)
    ensures
        out@ == fake_output_spec(*result, started_at@, completed_at@),
{
    let mut v: Vec<char> = Vec::new();
    append_str(&mut v, "attemptId: ");
    append_str(&mut v, result.attempt_id.as_str());
    append_str(&mut v, "\nstatus: ");
    append_str(&mut v, result.status.as_str());
    append_str(&mut v, "\nstartedAt: ");
    append_str(&mut v, started_at);
    append_str(&mut v, "\ncompletedAt: ");
    append_str(&mut v, completed_at);
    append_str(&mut v, "\nflags: ");
    let fl = crate::text::chars_all(&result.flags);
    let comma = chars_of(",");
    let joined = join_chars(&fl, &comma);
    append_chars(&mut v, &joined);
    append_str(&mut v, "\nfailureReason: ");
    match &result.failure_reason {
        Some(f) => append_str(&mut v, f.as_str()),
        None => {},
    }
    append_str(&mut v, "\n");
    string_of(&v)
}

// ---------------------------------------------------------------------------
// Report artifacts.

/// The paths of a run's artifacts, relative to the run directory.
#[derive(Debug)]
pub struct RunArtifactPaths {
    pub attempts: String,
    pub report_json: String,
    pub report_markdown: String,
    pub prompts: String,
    pub outputs: String,
    pub transcripts: String,
    pub attempt_state: String,
}

/// The artifact paths every run uses.
pub fn default_run_artifact_paths() -> (r: RunArtifactPaths)
    ensures
        r.attempts@ == "attempts.jsonl"@,
        r.report_json@ == "report.json"@,
        r.report_markdown@ == "report.md"@,
        r.prompts@ == "prompts"@,
        r.outputs@ == "outputs"@,
        r.transcripts@ == "transcripts"@,
        r.attempt_state@ == "attempt-state"@,
{
    RunArtifactPaths {
        attempts: owned("attempts.jsonl"),
        report_json: owned("report.json"),
        report_markdown: owned("report.md"),
        prompts: owned("prompts"),
        outputs: owned("outputs"),
        transcripts: owned("transcripts"),
        attempt_state: owned("attempt-state"),
    }
}

/// The paths a report names.
#[derive(Debug)]
pub struct ReportArtifactPaths {
    pub run: String,
    pub attempts: String,
    pub report_json: String,
    pub report_markdown: String,
}

/// `name` inside the directory `dir`, with `/` as the separator.
pub open spec fn join_path(dir: Seq<char>, name: Seq<char>) -> Seq<char> {
    if dir.len() == 0 {
        name
    } else if dir.last() == '/' {
        dir + name
    } else {
        dir + seq!['/'] + name
    }
}

fn join_path_exec(dir: &str, name: &str) -> (out: String)
    ensures
        out@ == join_path(dir@, name@),
{
    let d = chars_of(dir);
    let mut v = crate::text::copy_chars(&d);
    if d.len() > 0 && d[d.len() - 1] != '/' {
        v.push('/');
    }
    append_str(&mut v, name);
    proof {
        if d@.len() == 0 {
            assert(v@ =~= name@);
        } else if d@.last() == '/' {
            assert(v@ =~= dir@ + name@);
        } else {
            assert(v@ =~= dir@ + seq!['/'] + name@);
        }
    }
    string_of(&v)
}

/// The paths a report of the run in `run_dir` names: its run, attempts and
/// report files.
pub fn report_artifact_paths(run_dir: &str) -> (r: ReportArtifactPaths)
    ensures
        r.run@ == join_path(run_dir@, "run.json"@),
        r.attempts@ == join_path(run_dir@, "attempts.jsonl"@),
        r.report_json@ == join_path(run_dir@, "report.json"@),
        r.report_markdown@ == join_path(run_dir@, "report.md"@),
{
    ReportArtifactPaths {
        run: join_path_exec(run_dir, "run.json"),
        attempts: join_path_exec(run_dir, "attempts.jsonl"),
        report_json: join_path_exec(run_dir, "report.json"),
        report_markdown: join_path_exec(run_dir, "report.md"),
    }
}

/// The counts of one variant in a report.
#[derive(Debug)]
pub struct ReportVariantArtifact {
    pub name: String,
    pub agent_name: String,
    pub counts: StatusCounts,
}

/// The counts of one prompt in a report.
#[derive(Debug)]
pub struct ReportPromptArtifact {
    pub id: String,
    pub title: String,
    pub counts: StatusCounts,
}

/// The report of a run.
#[derive(Debug)]
pub struct ReportArtifact {
    pub schema_version: u32,
    pub run_id: String,
    pub experiment: String,
    pub format: String,
    pub status: String,
    pub dry_run: bool,
    pub generated_at: String,
    pub summary: ReportSummaryArtifact,
    pub variants: Vec<ReportVariantArtifact>,
    pub prompts: Vec<ReportPromptArtifact>,
    pub artifact_paths: ReportArtifactPaths,
    pub notes: Vec<String>,
}

/// The report of a run: its identity, its status (see
/// [`run_status_spec`]), the counts of all attempts, of each variant's and
/// of each prompt's, the paths in the run directory, and the notes.
#[verifier::spinoff_prover]
pub fn build_report_artifact(
    run_id: &str,
    experiment: &str,
    run_dir: &str,
    timestamp: &str,
    prompts: &Vec<PromptCase>,
    variants: &Vec<VariantMetadata>,
    replicates: u32,
    attempts: &Vec<AttemptArtifact>,
    dry_run: bool,
    workgroup: Option<&RunWorkgroupArtifact>,
) -> (r: ReportArtifact)
    ensures
        r.schema_version == 1,
        r.run_id@ == run_id@,
        r.experiment@ == experiment@,
        r.format@ == "json"@,
        r.status@ == run_status_spec(attempts@, dry_run),
        r.dry_run == dry_run,
        r.generated_at@ == timestamp@,
        r.summary.prompt_count == prompts@.len(),
        r.summary.variant_count == variants@.len(),
        r.summary.replicates == replicates,
        r.summary.attempt_count == attempts@.len(),
        r.summary.planned_attempt_count == tally(attempts@, "planned"@, Scope::All),
        r.summary.running_attempt_count == tally(attempts@, "running"@, Scope::All),
        r.summary.completed_attempt_count == tally(attempts@, "completed"@, Scope::All),
        r.summary.failed_attempt_count == tally(attempts@, "failed"@, Scope::All),
        r.summary.timed_out_attempt_count == tally(attempts@, "timed_out"@, Scope::All),
        r.summary.inconclusive_attempt_count == tally(attempts@, "inconclusive"@, Scope::All),
        r.summary.cancelled_attempt_count == tally(attempts@, "cancelled"@, Scope::All),
        r.variants@.len() == variants@.len(),
        forall|i: int|
            0 <= i < variants@.len() ==> #[trigger] r.variants@[i].name@ == variants@[i].name@
                && r.variants@[i].agent_name@ == variants@[i].agent_name@ && counts_of(
                r.variants@[i].counts,
                attempts@,
                Scope::Variant(variants@[i].name@),
            ),
        r.prompts@.len() == prompts@.len(),
        forall|i: int|
            0 <= i < prompts@.len() ==> #[trigger] r.prompts@[i].id@ == prompts@[i].id@
                && r.prompts@[i].title@ == prompts@[i].title@ && counts_of(
                r.prompts@[i].counts,
                attempts@,
                Scope::Prompt(prompts@[i].id@),
            ),
        r.artifact_paths.run@ == join_path(run_dir@, "run.json"@),
        r.artifact_paths.attempts@ == join_path(run_dir@, "attempts.jsonl"@),
        r.artifact_paths.report_json@ == join_path(run_dir@, "report.json"@),
        r.artifact_paths.report_markdown@ == join_path(run_dir@, "report.md"@),
        views(r.notes@) == notes_spec(
            dry_run,
            match workgroup {
                Some(w) => Some(w.path@),
                None => None,
            },
        ),
{
    let status = summarize_run_status(attempts, dry_run);
    let summary = count_attempt_statuses(prompts.len(), variants.len(), replicates, attempts);
    let mut vs: Vec<ReportVariantArtifact> = Vec::new();
    let mut i: usize = 0;
    while i < variants.len()
        invariant
            i <= variants@.len(),
            vs@.len() == i,
            forall|k: int|
                0 <= k < i ==> #[trigger] vs@[k].name@ == variants@[k].name@ && vs@[k].agent_name@
                    == variants@[k].agent_name@ && counts_of(
                    vs@[k].counts,
                    attempts@,
                    Scope::Variant(variants@[k].name@),
                ),
        decreases variants@.len() - i,
    {
        let v = &variants[i];
        let counts = tally_statuses(attempts, Some(v.name.as_str()), None);
        let ghost before = vs@;
        vs.push(ReportVariantArtifact { name: v.name.clone(), agent_name: v.agent_name.clone(), counts });
        assert(forall|k: int| 0 <= k < i ==> vs@[k] == before[k]);
        assert(vs@[i as int].name@ == variants@[i as int].name@);
        i = i + 1;
    }
    let mut ps: Vec<ReportPromptArtifact> = Vec::new();
    let mut j: usize = 0;
    while j < prompts.len()
        invariant
            j <= prompts@.len(),
            ps@.len() == j,
            forall|k: int|
                0 <= k < j ==> #[trigger] ps@[k].id@ == prompts@[k].id@ && ps@[k].title@
                    == prompts@[k].title@ && counts_of(
                    ps@[k].counts,
                    attempts@,
                    Scope::Prompt(prompts@[k].id@),
                ),
        decreases prompts@.len() - j,
    {
        let p = &prompts[j];
        let counts = tally_statuses(attempts, None, Some(p.id.as_str()));
        let ghost before = ps@;
        ps.push(ReportPromptArtifact { id: p.id.clone(), title: p.title.clone(), counts });
        assert(forall|k: int| 0 <= k < j ==> ps@[k] == before[k]);
        assert(ps@[j as int].id@ == prompts@[j as int].id@);
        j = j + 1;
    }
    ReportArtifact {
        schema_version: 1,
        run_id: owned(run_id),
        experiment: owned(experiment),
        format: owned("json"),
        status,
        dry_run,
        generated_at: owned(timestamp),
        summary,
        variants: vs,
        prompts: ps,
        artifact_paths: report_artifact_paths(run_dir),
        notes: report_notes(dry_run, workgroup),
    }
}

// ---------------------------------------------------------------------------
// The markdown report.

pub open spec fn count_cells(c: StatusCounts) -> Seq<char> {
    decimal(c.planned as nat) + " | "@ + decimal(c.running as nat) + " | "@ + decimal(
        c.completed as nat,
    ) + " | "@ + decimal(c.failed as nat) + " | "@ + decimal(c.timed_out as nat) + " | "@
        + decimal(c.inconclusive as nat) + " | "@ + decimal(c.cancelled as nat)
}

pub open spec fn table_row(a: Seq<char>, b: Seq<char>, c: StatusCounts) -> Seq<char> {
    "| "@ + table_cell_spec(a) + " | "@ + table_cell_spec(b) + " | "@ + count_cells(c) + " |\n"@
}

pub open spec fn variant_rows(vs: Seq<ReportVariantArtifact>) -> Seq<char>
    decreases vs.len(),
{
    if vs.len() == 0 {
        Seq::empty()
    } else {
        variant_rows(vs.drop_last()) + table_row(vs.last().name@, vs.last().agent_name@, vs.last().counts)
    }
}

pub open spec fn prompt_rows(ps: Seq<ReportPromptArtifact>) -> Seq<char>
    decreases ps.len(),
{
    if ps.len() == 0 {
        Seq::empty()
    } else {
        prompt_rows(ps.drop_last()) + table_row(ps.last().id@, ps.last().title@, ps.last().counts)
    }
}

pub open spec fn note_rows(ns: Seq<Seq<char>>) -> Seq<char>
    decreases ns.len(),
{
    if ns.len() == 0 {
        Seq::empty()
    } else {
        note_rows(ns.drop_last()) + "- "@ + ns.last() + "\n"@
    }
}

pub open spec fn status_row(name: Seq<char>, n: usize) -> Seq<char> {
    "| "@ + name + " | "@ + decimal(n as nat) + " |\n"@
}

pub open spec fn status_rows(s: ReportSummaryArtifact) -> Seq<char> {
    status_row("planned"@, s.planned_attempt_count) + status_row("running"@, s.running_attempt_count)
        + status_row("completed"@, s.completed_attempt_count) + status_row(
        "failed"@,
        s.failed_attempt_count,
    ) + status_row("timed_out"@, s.timed_out_attempt_count) + status_row(
        "inconclusive"@,
        s.inconclusive_attempt_count,
    ) + status_row("cancelled"@, s.cancelled_attempt_count)
}

pub open spec fn table_head(first: Seq<char>, second: Seq<char>) -> Seq<char> {
    "| "@ + first + " | "@ + second
        + " | Planned | Running | Completed | Failed | Timed out | Inconclusive | Cancelled |\n|---|---|---:|---:|---:|---:|---:|---:|---:|\n"@
}

pub open spec fn head_intro(r: ReportArtifact) -> Seq<char> {
    (if r.dry_run {
        "# Role Experiment Dry Run Report\n\n"@
    } else {
        "# Role Experiment Run Report\n\n"@
    }) + "Experiment: "@ + r.experiment@ + "\nRun ID: "@ + r.run_id@ + "\nStatus: "@ + r.status@
}

pub open spec fn head_summary(s: ReportSummaryArtifact) -> Seq<char> {
    "\n\n## Summary\n\n- Prompts: "@ + decimal(s.prompt_count as nat) + "\n- Variants: "@
        + decimal(s.variant_count as nat) + "\n- Replicates: "@ + decimal(s.replicates as nat)
        + "\n- Planned attempts: "@ + decimal(s.planned_attempt_count as nat)
}

pub open spec fn head_status(s: ReportSummaryArtifact) -> Seq<char> {
    "\n\n## Status Counts\n\n| Status | Attempts |\n|---|---:|\n"@ + status_rows(s)
}

pub open spec fn head_spec(r: ReportArtifact) -> Seq<char> {
    head_intro(r) + head_summary(r.summary) + head_status(r.summary)
}

pub open spec fn variants_section(r: ReportArtifact) -> Seq<char> {
    "\n## Variants\n\n"@ + table_head("Variant"@, "Agent"@) + variant_rows(r.variants@)
}

pub open spec fn prompts_section(r: ReportArtifact) -> Seq<char> {
    "\n## Prompts\n\n"@ + table_head("Prompt"@, "Title"@) + prompt_rows(r.prompts@)
}

pub open spec fn notes_section(r: ReportArtifact) -> Seq<char> {
    "\n## Notes\n\n"@ + note_rows(views(r.notes@))
}

/// The markdown form of a report: title, identity and status, summary,
/// status counts, one row per variant and per prompt (cells escaped), and the
/// notes.
pub open spec fn markdown_spec(r: ReportArtifact) -> Seq<char> {
    head_spec(r) + variants_section(r) + prompts_section(r) + notes_section(r)
}

/// The title of a report: a dry run's or a run's.
pub open spec fn report_title(dry_run: bool) -> Seq<char> {
    if dry_run {
        "# Role Experiment Dry Run Report\n\n"@
    } else {
        "# Role Experiment Run Report\n\n"@
    }
}

/// The markdown of a report opens with the title for a dry run or a run,
/// followed by its experiment, run id and status; it has one row per variant
/// and per prompt in the report's order (each table grows by one row per
/// item); and it closes with the notes section, one `- note` line per note
/// in order.
pub proof fn lemma_markdown_shape(r: ReportArtifact)
    ensures
        markdown_spec(r).subrange(0, head_intro(r).len() as int) == report_title(r.dry_run) + "Experiment: "@
            + r.experiment@ + "\nRun ID: "@ + r.run_id@ + "\nStatus: "@ + r.status@,
        markdown_spec(r).subrange(
            markdown_spec(r).len() - notes_section(r).len(),
            markdown_spec(r).len() as int,
        ) == "\n## Notes\n\n"@ + note_rows(views(r.notes@)),
        forall|vs: Seq<ReportVariantArtifact>, v: ReportVariantArtifact|
            #[trigger] variant_rows(vs.push(v)) == variant_rows(vs) + table_row(v.name@, v.agent_name@, v.counts),
        forall|ps: Seq<ReportPromptArtifact>, p: ReportPromptArtifact|
            #[trigger] prompt_rows(ps.push(p)) == prompt_rows(ps) + table_row(p.id@, p.title@, p.counts),
        forall|ns: Seq<Seq<char>>, n: Seq<char>| #[trigger] note_rows(ns.push(n)) == note_rows(ns) + "- "@ + n + "\n"@,
{
    let m = markdown_spec(r);
    let hi = head_intro(r);
    let rest = head_summary(r.summary) + head_status(r.summary) + variants_section(r) + prompts_section(r)
        + notes_section(r);
    assert(m =~= hi + rest);
    assert(m.subrange(0, hi.len() as int) =~= hi);
    assert(hi == report_title(r.dry_run) + "Experiment: "@ + r.experiment@ + "\nRun ID: "@ + r.run_id@
        + "\nStatus: "@ + r.status@);
    let front = head_spec(r) + variants_section(r) + prompts_section(r);
    assert(m =~= front + notes_section(r));
    assert(m.subrange(m.len() - notes_section(r).len(), m.len() as int) =~= notes_section(r));
    assert forall|vs: Seq<ReportVariantArtifact>, v: ReportVariantArtifact|
        #[trigger] variant_rows(vs.push(v)) == variant_rows(vs) + table_row(v.name@, v.agent_name@, v.counts) by {
        assert(vs.push(v).drop_last() =~= vs);
    }
    assert forall|ps: Seq<ReportPromptArtifact>, p: ReportPromptArtifact|
        #[trigger] prompt_rows(ps.push(p)) == prompt_rows(ps) + table_row(p.id@, p.title@, p.counts) by {
        assert(ps.push(p).drop_last() =~= ps);
    }
    assert forall|ns: Seq<Seq<char>>, n: Seq<char>| #[trigger] note_rows(ns.push(n)) == note_rows(ns) + "- "@ + n + "\n"@ by {
        assert(ns.push(n).drop_last() =~= ns);
    }
}

fn push_count_cells(v: &mut Vec<char>, c: &StatusCounts)
    ensures
        final(v)@ == old(v)@ + count_cells(*c),
{
    let ghost start = v@;
    push_decimal(v, c.planned as u64);
    append_str(v, " | ");
    push_decimal(v, c.running as u64);
    append_str(v, " | ");
    push_decimal(v, c.completed as u64);
    append_str(v, " | ");
    push_decimal(v, c.failed as u64);
    append_str(v, " | ");
    push_decimal(v, c.timed_out as u64);
    append_str(v, " | ");
    push_decimal(v, c.inconclusive as u64);
    append_str(v, " | ");
    push_decimal(v, c.cancelled as u64);
    assert(v@ =~= start + count_cells(*c));
}

fn push_table_row(v: &mut Vec<char>, a: &str, b: &str, c: &StatusCounts)
    ensures
        final(v)@ == old(v)@ + table_row(a@, b@, *c),
{
    let ghost start = v@;
    append_str(v, "| ");
    let ca = markdown_table_cell(a);
    append_str(v, ca.as_str());
    append_str(v, " | ");
    let cb = markdown_table_cell(b);
    append_str(v, cb.as_str());
    append_str(v, " | ");
    push_count_cells(v, c);
    append_str(v, " |\n");
    assert(v@ =~= start + table_row(a@, b@, *c));
}

fn push_status_row(v: &mut Vec<char>, name: &str, n: usize)
    ensures
        final(v)@ == old(v)@ + status_row(name@, n),
{
    let ghost start = v@;
    append_str(v, "| ");
    append_str(v, name);
    append_str(v, " | ");
    push_decimal(v, n as u64);
    append_str(v, " |\n");
    assert(v@ =~= start + status_row(name@, n));
}

fn push_head_intro(m: &mut Vec<char>, report: &ReportArtifact)
    ensures
        final(m)@ == old(m)@ + head_intro(*report),
{
    let ghost start = m@;
    if report.dry_run {
        append_str(m, "# Role Experiment Dry Run Report\n\n");
    } else {
        append_str(m, "# Role Experiment Run Report\n\n");
    }
    append_str(m, "Experiment: ");
    append_str(m, report.experiment.as_str());
    append_str(m, "\nRun ID: ");
    append_str(m, report.run_id.as_str());
    append_str(m, "\nStatus: ");
    append_str(m, report.status.as_str());
    assert(m@ =~= start + head_intro(*report));
}

fn push_head_summary(m: &mut Vec<char>, s: &ReportSummaryArtifact)
    ensures
        final(m)@ == old(m)@ + head_summary(*s),
{
    let ghost start = m@;
    append_str(m, "\n\n## Summary\n\n- Prompts: ");
    push_decimal(m, s.prompt_count as u64);
    append_str(m, "\n- Variants: ");
    push_decimal(m, s.variant_count as u64);
    append_str(m, "\n- Replicates: ");
    push_decimal(m, s.replicates as u64);
    append_str(m, "\n- Planned attempts: ");
    push_decimal(m, s.planned_attempt_count as u64);
    assert(m@ =~= start + head_summary(*s));
}

fn push_head_status(m: &mut Vec<char>, s: &ReportSummaryArtifact)
    ensures
        final(m)@ == old(m)@ + head_status(*s),
{
    let ghost start = m@;
    append_str(m, "\n\n## Status Counts\n\n| Status | Attempts |\n|---|---:|\n");
    push_status_row(m, "planned", s.planned_attempt_count);
    push_status_row(m, "running", s.running_attempt_count);
    push_status_row(m, "completed", s.completed_attempt_count);
    push_status_row(m, "failed", s.failed_attempt_count);
    push_status_row(m, "timed_out", s.timed_out_attempt_count);
    push_status_row(m, "inconclusive", s.inconclusive_attempt_count);
    push_status_row(m, "cancelled", s.cancelled_attempt_count);
    assert(m@ =~= start + head_status(*s));
}

fn push_table_head(m: &mut Vec<char>, first: &str, second: &str)
    ensures
        final(m)@ == old(m)@ + table_head(first@, second@),
{
    let ghost start = m@;
    append_str(m, "| ");
    append_str(m, first);
    append_str(m, " | ");
    append_str(m, second);
    append_str(
        m,
        " | Planned | Running | Completed | Failed | Timed out | Inconclusive | Cancelled |\n|---|---|---:|---:|---:|---:|---:|---:|---:|\n",
    );
    assert(m@ =~= start + table_head(first@, second@));
}

fn push_variants(m: &mut Vec<char>, report: &ReportArtifact)
    ensures
        final(m)@ == old(m)@ + variants_section(*report),
{
    let ghost start = m@;
    append_str(m, "\n## Variants\n\n");
    push_table_head(m, "Variant", "Agent");
    let ghost before_rows = m@;
    let mut i: usize = 0;
    while i < report.variants.len()
        invariant
            i <= report.variants@.len(),
            m@ == before_rows + variant_rows(report.variants@.take(i as int)),
        decreases report.variants@.len() - i,
    {
        let v = &report.variants[i];
        push_table_row(m, v.name.as_str(), v.agent_name.as_str(), &v.counts);
        assert(report.variants@.take(i + 1).drop_last() =~= report.variants@.take(i as int));
        assert(m@ =~= before_rows + variant_rows(report.variants@.take(i + 1)));
        i = i + 1;
    }
    assert(report.variants@.take(i as int) =~= report.variants@);
    assert(m@ =~= start + variants_section(*report));
}

fn push_prompts(m: &mut Vec<char>, report: &ReportArtifact)
    ensures
        final(m)@ == old(m)@ + prompts_section(*report),
{
    let ghost start = m@;
    append_str(m, "\n## Prompts\n\n");
    push_table_head(m, "Prompt", "Title");
    let ghost before_rows = m@;
    let mut j: usize = 0;
    while j < report.prompts.len()
        invariant
            j <= report.prompts@.len(),
            m@ == before_rows + prompt_rows(report.prompts@.take(j as int)),
        decreases report.prompts@.len() - j,
    {
        let p = &report.prompts[j];
        push_table_row(m, p.id.as_str(), p.title.as_str(), &p.counts);
        assert(report.prompts@.take(j + 1).drop_last() =~= report.prompts@.take(j as int));
        assert(m@ =~= before_rows + prompt_rows(report.prompts@.take(j + 1)));
        j = j + 1;
    }
    assert(report.prompts@.take(j as int) =~= report.prompts@);
    assert(m@ =~= start + prompts_section(*report));
}

fn push_notes(m: &mut Vec<char>, report: &ReportArtifact)
    ensures
        final(m)@ == old(m)@ + notes_section(*report),
{
    let ghost start = m@;
    append_str(m, "\n## Notes\n\n");
    let ghost before_rows = m@;
    let ghost nv = views(report.notes@);
    let mut k: usize = 0;
    while k < report.notes.len()
        invariant
            k <= report.notes@.len(),
            nv == views(report.notes@),
            m@ == before_rows + note_rows(nv.take(k as int)),
        decreases report.notes@.len() - k,
    {
        append_str(m, "- ");
        append_str(m, report.notes[k].as_str());
        append_str(m, "\n");
        assert(nv.take(k + 1).drop_last() =~= nv.take(k as int));
        assert(m@ =~= before_rows + note_rows(nv.take(k + 1)));
        k = k + 1;
    }
    assert(nv.take(k as int) =~= nv);
    assert(m@ =~= start + notes_section(*report));
}

/// The markdown form of a report (see [`markdown_spec`]).
pub fn render_report_markdown(report: &ReportArtifact) -> (out: String)
    ensures
        out@ == markdown_spec(*report),
{
    let mut m: Vec<char> = Vec::new();
    push_head_intro(&mut m, report);
    push_head_summary(&mut m, &report.summary);
    push_head_status(&mut m, &report.summary);
    push_variants(&mut m, report);
    push_prompts(&mut m, report);
    push_notes(&mut m, report);
    assert(m@ =~= markdown_spec(*report));
    string_of(&m)
}

// ---------------------------------------------------------------------------
// The prompt suite: one JSON object per line.

/// The lower-case hexadecimal SHA-256 digest of `bytes`.
pub uninterp spec fn sha256_hex_of(bytes: Seq<u8>) -> Seq<char>;

/// `sha2::Sha256::digest` on `bytes`, printed as lower-case hexadecimal. The
/// contract names the digest (`sha256_hex_of`) and claims nothing more.
#[verifier::external_body]
pub(crate) fn sha256_hex(bytes: &[u8]) -> (r: String)
    ensures
        r@ == sha256_hex_of(bytes@),
{
    format!("{:x}", Sha256::digest(bytes))
}

pub struct CliErrorView {
    pub code: Seq<char>,
    pub message: Seq<char>,
    pub variant: Option<Seq<char>>,
    pub line: Option<usize>,
    pub field: Option<Seq<char>>,
    pub path: Option<Seq<char>>,
}

impl View for CliError {
    type V = CliErrorView;

    open spec fn view(&self) -> CliErrorView {
        CliErrorView {
            code: self.code@,
            message: self.message@,
            variant: opt_view(self.variant),
            line: self.line,
            field: opt_view(self.field),
            path: opt_view(self.path),
        }
    }
}

pub open spec fn errs_view(es: Seq<CliError>) -> Seq<CliErrorView> {
    es.map_values(|e: CliError| e@)
}

pub open spec fn str_opt(o: Option<&str>) -> Option<Seq<char>> {
    match o {
        Some(s) => Some(s@),
        None => None,
    }
}

pub open spec fn at_line(code: Seq<char>, message: Seq<char>, line: usize, field: Option<Seq<char>>) -> CliErrorView {
    CliErrorView { code, message, variant: None, line: Some(line), field, path: None }
}

pub open spec fn at_path(code: Seq<char>, message: Seq<char>, path: Seq<char>) -> CliErrorView {
    CliErrorView { code, message, variant: None, line: None, field: None, path: Some(path) }
}

/// An error at a line of an input file, possibly naming a field.
pub fn err_at_line(code: &str, message: Vec<char>, line: usize, field: Option<&str>) -> (e: CliError)
    ensures
        e@ == at_line(code@, message@, line, str_opt(field)),
{
    CliError {
        code: owned(code),
        message: string_of(&message),
        variant: None,
        line: Some(line),
        field: match field {
            Some(f) => Some(owned(f)),
            None => None,
        },
        path: None,
    }
}

/// An error about a whole file.
pub fn err_at_path(code: &str, message: Vec<char>, path: &str) -> (e: CliError)
    ensures
        e@ == at_path(code@, message@, path@),
{
    CliError {
        code: owned(code),
        message: string_of(&message),
        variant: None,
        line: None,
        field: None,
        path: Some(owned(path)),
    }
}

pub struct PromptCaseView {
    pub id: Seq<char>,
    pub title: Seq<char>,
    pub prompt: Seq<char>,
    pub tags: Seq<Seq<char>>,
    pub expected_behaviors: Seq<Seq<char>>,
    pub line: usize,
}

impl View for PromptCase {
    type V = PromptCaseView;

    open spec fn view(&self) -> PromptCaseView {
        PromptCaseView {
            id: self.id@,
            title: self.title@,
            prompt: self.prompt@,
            tags: views(self.tags@),
            expected_behaviors: views(self.expected_behaviors@),
            line: self.line,
        }
    }
}

/// A required string field: present as a string that is not blank; its
/// value trimmed.
pub open spec fn required_field(text: Seq<char>, field: Seq<char>) -> Option<Seq<char>> {
    match json_member_of(text, field) {
        JsonMemberView::Text(s) => if trim_ws(s).len() > 0 {
            Some(trim_ws(s))
        } else {
            None
        },
        _ => None,
    }
}

/// What an optional array-of-strings field holds.
pub enum StringArray {
    Items(Vec<String>),
    NotArray,
    NonString,
}

pub enum StringArrayView {
    Items(Seq<Seq<char>>),
    NotArray,
    NonString,
}

impl View for StringArray {
    type V = StringArrayView;

    open spec fn view(&self) -> StringArrayView {
        match self {
            StringArray::Items(v) => StringArrayView::Items(views(v@)),
            StringArray::NotArray => StringArrayView::NotArray,
            StringArray::NonString => StringArrayView::NonString,
        }
    }
}

pub open spec fn all_strings(items: Seq<Option<Seq<char>>>) -> bool {
    forall|i: int| 0 <= i < items.len() ==> (#[trigger] items[i]) is Some
}

/// An optional array-of-strings field: empty when absent, refused when it is
/// not an array or holds anything but strings.
pub open spec fn array_field(text: Seq<char>, field: Seq<char>) -> StringArrayView {
    match json_member_of(text, field) {
        JsonMemberView::Absent => StringArrayView::Items(Seq::empty()),
        JsonMemberView::Items(items) => if all_strings(items) {
            StringArrayView::Items(items.map_values(|o: Option<Seq<char>>| o->0))
        } else {
            StringArrayView::NonString
        },
        _ => StringArrayView::NotArray,
    }
}

/// The string field `field` of the JSON object `text`, trimmed, when it is
/// there and not blank.
pub fn required_prompt_string(text: &str, field: &str) -> (r: Option<String>)
    ensures
        opt_view(r) == required_field(text@, field@),
{
    match json_member(text, field) {
        JsonMember::Text(s) => {
            let t = trim(&chars_of(s.as_str()));
            if t.len() > 0 {
                Some(string_of(&t))
            } else {
                None
            }
        },
        _ => None,
    }
}

/// The array-of-strings field `field` of the JSON object `text`.
pub fn optional_string_array(text: &str, field: &str) -> (r: StringArray)
    ensures
        r@ == array_field(text@, field@),
{
    match json_member(text, field) {
        JsonMember::Absent => {
            let out: Vec<String> = Vec::new();
            assert(views(out@) =~= Seq::<Seq<char>>::empty());
            StringArray::Items(out)
        },
        JsonMember::Items(items) => {
            let ghost iv = item_views(items@);
            let mut out: Vec<String> = Vec::new();
            let mut i: usize = 0;
            while i < items.len()
                invariant
                    i <= items@.len(),
                    iv == item_views(items@),
                    json_member_of(text@, field@) == JsonMemberView::Items(iv),
                    forall|k: int| 0 <= k < i ==> (#[trigger] iv[k]) is Some,
                    views(out@) =~= iv.take(i as int).map_values(|o: Option<Seq<char>>| o->0),
                decreases items@.len() - i,
            {
                match &items[i] {
                    Some(s) => {
                        let ghost before = out@;
                        out.push(s.clone());
                        assert(iv[i as int] == Some(s@));
                        assert(views(out@) =~= views(before).push(s@));
                        assert(iv.take(i + 1) =~= iv.take(i as int).push(iv[i as int]));
                        assert(views(out@) =~= iv.take(i + 1).map_values(|o: Option<Seq<char>>| o->0));
                    },
                    None => {
                        assert(!all_strings(iv)) by {
                            assert(iv[i as int] is None);
                        }
                        return StringArray::NonString;
                    },
                }
                i = i + 1;
            }
            assert(iv.take(i as int) =~= iv);
            StringArray::Items(out)
        },
        _ => StringArray::NotArray,
    }
}

/// What one line of the suite gives, apart from the check for duplicate ids.
pub enum LineVerdict {
    Skip,
    Fail(CliErrorView),
    Case(PromptCaseView),
}

pub open spec fn line_prefix(n: usize) -> Seq<char> {
    "Prompt suite line "@ + decimal(n as nat)
}

pub open spec fn unparseable(n: usize, message: Seq<char>, field: Option<Seq<char>>) -> CliErrorView {
    at_line("prompt_suite_unparseable"@, line_prefix(n) + message, n, field)
}

pub open spec fn missing_field(n: usize, field: Seq<char>) -> CliErrorView {
    unparseable(n, " is missing required string field "@ + field, Some(field))
}

pub open spec fn array_error(n: usize, field: Seq<char>, a: StringArrayView) -> CliErrorView {
    if a is NotArray {
        unparseable(n, " field "@ + field + " must be an array of strings"@, Some(field))
    } else {
        unparseable(n, " field "@ + field + " must contain only strings"@, Some(field))
    }
}

pub open spec fn arrays_verdict(text: Seq<char>, n: usize, id: Seq<char>, title: Seq<char>, prompt: Seq<char>) -> LineVerdict {
    let tags = array_field(text, "tags"@);
    let expected = array_field(text, "expectedBehaviors"@);
    if !(tags is Items) {
        LineVerdict::Fail(array_error(n, "tags"@, tags))
    } else if !(expected is Items) {
        LineVerdict::Fail(array_error(n, "expectedBehaviors"@, expected))
    } else {
        LineVerdict::Case(
            PromptCaseView {
                id,
                title,
                prompt,
                tags: tags->Items_0,
                expected_behaviors: expected->Items_0,
                line: n,
            },
        )
    }
}

pub open spec fn fields_verdict(text: Seq<char>, n: usize) -> LineVerdict {
    match required_field(text, "id"@) {
        None => LineVerdict::Fail(missing_field(n, "id"@)),
        Some(id) => if !safe_prompt_id(id) {
            LineVerdict::Fail(
                unparseable(
                    n,
                    " has invalid id '"@ + id + "'; use lowercase ASCII letters, digits, hyphen, or underscore"@,
                    Some("id"@),
                ),
            )
        } else {
            match required_field(text, "title"@) {
                None => LineVerdict::Fail(missing_field(n, "title"@)),
                Some(title) => match required_field(text, "prompt"@) {
                    None => LineVerdict::Fail(missing_field(n, "prompt"@)),
                    Some(prompt) => arrays_verdict(text, n, id, title, prompt),
                },
            }
        },
    }
}

/// One line of the suite: blank lines are skipped; otherwise it must be a
/// JSON object with a safe `id`, a `title` and a `prompt`, and optionally
/// string arrays `tags` and `expectedBehaviors`.
pub open spec fn line_verdict(text: Seq<char>, n: usize) -> LineVerdict {
    if trim_ws(text).len() == 0 {
        LineVerdict::Skip
    } else {
        match json_shape_of(text) {
            JsonShapeView::Invalid(e) => LineVerdict::Fail(unparseable(n, " is invalid JSON: "@ + e, None)),
            JsonShapeView::NotObject => LineVerdict::Fail(unparseable(n, " must be a JSON object"@, None)),
            JsonShapeView::Object => fields_verdict(text, n),
        }
    }
}

proof fn lemma_last_pos_none(ids: Seq<Seq<char>>, id: Seq<char>)
    ensures
        last_pos(ids, id) is None <==> forall|k: int| 0 <= k < ids.len() ==> ids[k] != id,
    decreases ids.len(),
{
    if ids.len() > 0 {
        lemma_last_pos_none(ids.drop_last(), id);
        if ids.last() != id {
            assert forall|k: int| 0 <= k < ids.len() - 1 implies ids[k] == ids.drop_last()[k] by {}
        }
    }
}

proof fn lemma_scan_ids(ls: Seq<Seq<char>>)
    ensures
        forall|i: int|
            0 <= i < scan_lines(ls).prompts.len() ==> scan_lines(ls).seen_ids.contains(
                #[trigger] scan_lines(ls).prompts[i].id,
            ),
        forall|i: int, j: int|
            0 <= i < j < scan_lines(ls).prompts.len() ==> #[trigger] scan_lines(ls).prompts[i].id
                != #[trigger] scan_lines(ls).prompts[j].id,
    decreases ls.len(),
{
    if ls.len() > 0 {
        let prev = scan_lines(ls.drop_last());
        lemma_scan_ids(ls.drop_last());
        let st = scan_lines(ls);
        match line_verdict(ls.last(), ls.len() as usize) {
            LineVerdict::Case(c) => {
                lemma_last_pos_none(prev.seen_ids, c.id);
                assert forall|i: int| 0 <= i < st.prompts.len() implies st.seen_ids.contains(
                    #[trigger] st.prompts[i].id,
                ) by {
                    if i < prev.prompts.len() {
                        let k = choose|k: int| 0 <= k < prev.seen_ids.len() && prev.seen_ids[k] == prev.prompts[i].id;
                        assert(st.seen_ids[k] == prev.seen_ids[k]);
                    } else {
                        assert(st.seen_ids[prev.seen_ids.len() as int] == c.id);
                    }
                }
                if last_pos(prev.seen_ids, c.id) is None {
                    assert forall|i: int, j: int| 0 <= i < j < st.prompts.len() implies #[trigger] st.prompts[i].id
                        != #[trigger] st.prompts[j].id by {
                        if j == prev.prompts.len() {
                            let k = choose|k: int| 0 <= k < prev.seen_ids.len() && prev.seen_ids[k] == prev.prompts[i].id;
                            assert(prev.seen_ids[k] != c.id);
                        } else {
                            assert(st.prompts[i] == prev.prompts[i]);
                            assert(st.prompts[j] == prev.prompts[j]);
                        }
                    }
                }
            },
            _ => {},
        }
    }
}

/// No two prompt cases of a suite that parses share an id: a repeated id is
/// an error, never a second case.
pub proof fn lemma_suite_ids_distinct(content: Seq<char>, path: Seq<char>)
    requires
        suite_spec(content, path) is Ok,
    ensures
        forall|i: int, j: int|
            0 <= i < j < suite_spec(content, path)->Ok_0.len() ==> #[trigger] suite_spec(content, path)->Ok_0[i].id
                != #[trigger] suite_spec(content, path)->Ok_0[j].id,
{
    lemma_scan_ids(lines(content));
}

proof fn lemma_scan_cases(ls: Seq<Seq<char>>)
    requires
        ls.len() <= usize::MAX,
    ensures
        forall|i: int| 0 <= i < scan_lines(ls).prompts.len() ==> safe_prompt_id(#[trigger] scan_lines(ls).prompts[i].id),
        forall|i: int|
            0 <= i < scan_lines(ls).prompts.len() ==> 1 <= (#[trigger] scan_lines(ls).prompts[i]).line <= ls.len(),
        forall|i: int, j: int|
            0 <= i < j < scan_lines(ls).prompts.len() ==> (#[trigger] scan_lines(ls).prompts[i]).line
                < (#[trigger] scan_lines(ls).prompts[j]).line,
        scan_lines(ls).errors.len() + scan_lines(ls).prompts.len() <= ls.len(),
    decreases ls.len(),
{
    if ls.len() > 0 {
        let prev = scan_lines(ls.drop_last());
        lemma_scan_cases(ls.drop_last());
        let st = scan_lines(ls);
        let n = ls.len() as usize;
        match line_verdict(ls.last(), n) {
            LineVerdict::Case(c) => {
                assert(c.line == n && safe_prompt_id(c.id));
                if last_pos(prev.seen_ids, c.id) is None {
                    assert forall|i: int| 0 <= i < st.prompts.len() implies safe_prompt_id(#[trigger] st.prompts[i].id)
                        && 1 <= st.prompts[i].line <= ls.len() by {
                        if i < prev.prompts.len() {
                            assert(st.prompts[i] == prev.prompts[i]);
                        }
                    }
                    assert forall|i: int, j: int| 0 <= i < j < st.prompts.len() implies (#[trigger] st.prompts[i]).line
                        < (#[trigger] st.prompts[j]).line by {
                        assert(st.prompts[i] == prev.prompts[i]);
                        if j < prev.prompts.len() {
                            assert(st.prompts[j] == prev.prompts[j]);
                        }
                    }
                }
            },
            _ => {},
        }
    }
}

/// The cases of a suite that parses are in file order: each has a safe id
/// (see [`safe_prompt_id`]) and the number of the line it is on, the lines
/// strictly increasing; and a suite gives at most one error or case per line.
pub proof fn lemma_suite_cases_in_order(content: Seq<char>, path: Seq<char>)
    requires
        lines(content).len() <= usize::MAX,
    ensures
        scan_lines(lines(content)).errors.len() + scan_lines(lines(content)).prompts.len() <= lines(content).len(),
        suite_spec(content, path) matches Ok(ps) ==> {
            &&& ps.len() > 0
            &&& forall|i: int| 0 <= i < ps.len() ==> safe_prompt_id(#[trigger] ps[i].id)
            &&& forall|i: int| 0 <= i < ps.len() ==> 1 <= (#[trigger] ps[i]).line <= lines(content).len()
            &&& forall|i: int, j: int| 0 <= i < j < ps.len() ==> (#[trigger] ps[i]).line < (#[trigger] ps[j]).line
        },
{
    lemma_scan_cases(lines(content));
}

/// The scan of the suite so far: its errors and prompt cases, and the id and
/// line of every case line seen (duplicates included).
pub struct SuiteScan {
    pub errors: Seq<CliErrorView>,
    pub prompts: Seq<PromptCaseView>,
    pub seen_ids: Seq<Seq<char>>,
    pub seen_lines: Seq<usize>,
}

/// The last position of `id` in `ids`.
pub open spec fn last_pos(ids: Seq<Seq<char>>, id: Seq<char>) -> Option<int>
    decreases ids.len(),
{
    if ids.len() == 0 {
        None
    } else if ids.last() == id {
        Some(ids.len() - 1)
    } else {
        last_pos(ids.drop_last(), id)
    }
}

proof fn lemma_last_pos_in_range(ids: Seq<Seq<char>>, id: Seq<char>)
    ensures
        last_pos(ids, id) matches Some(k) ==> 0 <= k < ids.len() && ids[k] == id,
    decreases ids.len(),
{
    if ids.len() > 0 && ids.last() != id {
        lemma_last_pos_in_range(ids.drop_last(), id);
    }
}

pub open spec fn duplicate_error(id: Seq<char>, n: usize, first: usize) -> CliErrorView {
    at_line(
        "prompt_suite_duplicate_id"@,
        "Prompt suite duplicate id '"@ + id + "' at line "@ + decimal(n as nat) + "; first seen at line "@ + decimal(
            first as nat,
        ),
        n,
        Some("id"@),
    )
}

/// One line added to the scan. A case whose id was seen before is an error
/// naming the line it was last seen on.
pub open spec fn scan_step(st: SuiteScan, text: Seq<char>, n: usize) -> SuiteScan {
    match line_verdict(text, n) {
        LineVerdict::Skip => st,
        LineVerdict::Fail(e) => SuiteScan { errors: st.errors.push(e), ..st },
        LineVerdict::Case(c) => match last_pos(st.seen_ids, c.id) {
            Some(k) => SuiteScan {
                errors: st.errors.push(duplicate_error(c.id, n, st.seen_lines[k])),
                prompts: st.prompts,
                seen_ids: st.seen_ids.push(c.id),
                seen_lines: st.seen_lines.push(n),
            },
            None => SuiteScan {
                errors: st.errors,
                prompts: st.prompts.push(c),
                seen_ids: st.seen_ids.push(c.id),
                seen_lines: st.seen_lines.push(n),
            },
        },
    }
}

/// The scan of the lines `ls`, numbered from 1.
pub open spec fn scan_lines(ls: Seq<Seq<char>>) -> SuiteScan
    decreases ls.len(),
{
    if ls.len() == 0 {
        SuiteScan { errors: Seq::empty(), prompts: Seq::empty(), seen_ids: Seq::empty(), seen_lines: Seq::empty() }
    } else {
        scan_step(scan_lines(ls.drop_last()), ls.last(), ls.len() as usize)
    }
}

/// The prompt cases of a suite's text, or all the errors of its lines; a
/// suite without cases is refused as empty.
pub open spec fn suite_spec(content: Seq<char>, path: Seq<char>) -> Result<Seq<PromptCaseView>, Seq<CliErrorView>> {
    let st = scan_lines(lines(content));
    if st.errors.len() > 0 {
        Err(st.errors)
    } else if st.prompts.len() == 0 {
        Err(seq![at_path("prompt_suite_empty"@, "Prompt suite contains no prompt cases"@, path)])
    } else {
        Ok(st.prompts)
    }
}

pub enum LineCheck {
    Skip,
    Fail(CliError),
    Case(PromptCase),
}

pub open spec fn line_check_view(c: LineCheck) -> LineVerdict {
    match c {
        LineCheck::Skip => LineVerdict::Skip,
        LineCheck::Fail(e) => LineVerdict::Fail(e@),
        LineCheck::Case(p) => LineVerdict::Case(p@),
    }
}

fn line_prefix_chars(n: usize) -> (v: Vec<char>)
    ensures
        v@ == line_prefix(n),
{
    let mut v: Vec<char> = Vec::new();
    append_str(&mut v, "Prompt suite line ");
    push_decimal(&mut v, n as u64);
    v
}

fn missing_field_error(n: usize, field: &str) -> (e: CliError)
    ensures
        e@ == missing_field(n, field@),
{
    let mut m = line_prefix_chars(n);
    append_str(&mut m, " is missing required string field ");
    append_str(&mut m, field);
    assert(m@ =~= line_prefix(n) + (" is missing required string field "@ + field@));
    err_at_line("prompt_suite_unparseable", m, n, Some(field))
}

fn array_field_error(n: usize, field: &str, a: &StringArray) -> (e: CliError)
    requires
        !(a is Items),
    ensures
        e@ == array_error(n, field@, a@),
{
    let mut m = line_prefix_chars(n);
    append_str(&mut m, " field ");
    append_str(&mut m, field);
    match a {
        StringArray::NotArray => {
            append_str(&mut m, " must be an array of strings");
            assert(m@ =~= line_prefix(n) + (" field "@ + field@ + " must be an array of strings"@));
        },
        _ => {
            append_str(&mut m, " must contain only strings");
            assert(m@ =~= line_prefix(n) + (" field "@ + field@ + " must contain only strings"@));
        },
    }
    err_at_line("prompt_suite_unparseable", m, n, Some(field))
}

fn check_arrays(text: &str, n: usize, id: String, title: String, prompt: String) -> (r: LineCheck)
    ensures
        line_check_view(r) == arrays_verdict(text@, n, id@, title@, prompt@),
{
    let tags = optional_string_array(text, "tags");
    let expected = optional_string_array(text, "expectedBehaviors");
    match tags {
        StringArray::Items(t) => match expected {
            StringArray::Items(x) => LineCheck::Case(
                PromptCase { id, title, prompt, tags: t, expected_behaviors: x, line: n },
            ),
            _ => LineCheck::Fail(array_field_error(n, "expectedBehaviors", &expected)),
        },
        _ => LineCheck::Fail(array_field_error(n, "tags", &tags)),
    }
}

fn check_fields(text: &str, n: usize) -> (r: LineCheck)
    ensures
        line_check_view(r) == fields_verdict(text@, n),
{
    let id = match required_prompt_string(text, "id") {
        Some(id) => id,
        None => {
            return LineCheck::Fail(missing_field_error(n, "id"));
        },
    };
    if !is_safe_prompt_id(id.as_str()) {
        let mut m = line_prefix_chars(n);
        append_str(&mut m, " has invalid id '");
        append_str(&mut m, id.as_str());
        append_str(&mut m, "'; use lowercase ASCII letters, digits, hyphen, or underscore");
        assert(m@ =~= line_prefix(n) + (" has invalid id '"@ + id@
            + "'; use lowercase ASCII letters, digits, hyphen, or underscore"@));
        return LineCheck::Fail(err_at_line("prompt_suite_unparseable", m, n, Some("id")));
    }
    let title = match required_prompt_string(text, "title") {
        Some(t) => t,
        None => {
            return LineCheck::Fail(missing_field_error(n, "title"));
        },
    };
    let prompt = match required_prompt_string(text, "prompt") {
        Some(p) => p,
        None => {
            return LineCheck::Fail(missing_field_error(n, "prompt"));
        },
    };
    check_arrays(text, n, id, title, prompt)
}

/// One line of the suite (see [`line_verdict`]).
pub fn check_prompt_line(text: &str, n: usize) -> (r: LineCheck)
    ensures
        line_check_view(r) == line_verdict(text@, n),
{
    let t = trim(&chars_of(text));
    if t.len() == 0 {
        return LineCheck::Skip;
    }
    match json_shape(text) {
        JsonShape::Invalid(e) => {
            let mut m = line_prefix_chars(n);
            append_str(&mut m, " is invalid JSON: ");
            append_str(&mut m, e.as_str());
            assert(m@ =~= line_prefix(n) + (" is invalid JSON: "@ + e@));
            LineCheck::Fail(err_at_line("prompt_suite_unparseable", m, n, None))
        },
        JsonShape::NotObject => {
            let mut m = line_prefix_chars(n);
            append_str(&mut m, " must be a JSON object");
            LineCheck::Fail(err_at_line("prompt_suite_unparseable", m, n, None))
        },
        JsonShape::Object => check_fields(text, n),
    }
}

fn find_last_seen(seen_ids: &Vec<String>, id: &str) -> (r: Option<usize>)
    ensures
        match r {
            Some(k) => last_pos(views(seen_ids@), id@) == Some(k as int),
            None => last_pos(views(seen_ids@), id@) is None,
        },
{
    let ghost ids = views(seen_ids@);
    let mut found: Option<usize> = None;
    let mut j: usize = 0;
    while j < seen_ids.len()
        invariant
            j <= seen_ids@.len(),
            ids == views(seen_ids@),
            match found {
                Some(k) => last_pos(ids.take(j as int), id@) == Some(k as int),
                None => last_pos(ids.take(j as int), id@) is None,
            },
        decreases seen_ids@.len() - j,
    {
        assert(ids.take(j + 1).drop_last() =~= ids.take(j as int));
        if str_eq(seen_ids[j].as_str(), id) {
            found = Some(j);
        }
        j = j + 1;
    }
    assert(ids.take(j as int) =~= ids);
    found
}

/// The prompt cases of a suite's text (see [`suite_spec`]); `path` names the
/// suite in the error for an empty one.
pub fn parse_prompt_suite_text(content: &str, path: &str) -> (r: Result<Vec<PromptCase>, Vec<CliError>>)
    ensures
        match r {
            Ok(ps) => suite_spec(content@, path@) == Ok::<Seq<PromptCaseView>, Seq<CliErrorView>>(
                ps@.map_values(|p: PromptCase| p@),
            ),
            Err(es) => suite_spec(content@, path@) == Err::<Seq<PromptCaseView>, Seq<CliErrorView>>(
                errs_view(es@),
            ),
        },
{
    let ls = lines_of(&chars_of(content));
    let ghost lv = char_views(ls@);
    let mut errors: Vec<CliError> = Vec::new();
    let mut prompts: Vec<PromptCase> = Vec::new();
    let mut seen_ids: Vec<String> = Vec::new();
    let mut seen_lines: Vec<usize> = Vec::new();
    let mut i: usize = 0;
    while i < ls.len()
        invariant
            i <= ls@.len(),
            lv == char_views(ls@),
            lv == lines(content@),
            errs_view(errors@) == scan_lines(lv.take(i as int)).errors,
            prompts@.map_values(|p: PromptCase| p@) == scan_lines(lv.take(i as int)).prompts,
            views(seen_ids@) == scan_lines(lv.take(i as int)).seen_ids,
            seen_lines@ == scan_lines(lv.take(i as int)).seen_lines,
            seen_ids@.len() == seen_lines@.len(),
        decreases ls@.len() - i,
    {
        let ghost before = scan_lines(lv.take(i as int));
        let n = i + 1;
        let text = string_of(&ls[i]);
        assert(lv.take(i + 1).drop_last() =~= lv.take(i as int));
        assert(lv.take(i + 1).last() == lv[i as int]);
        assert(text@ == lv[i as int]);
        let verdict = check_prompt_line(text.as_str(), n);
        match verdict {
            LineCheck::Skip => {},
            LineCheck::Fail(e) => {
                errors.push(e);
                assert(errs_view(errors@) =~= before.errors.push(e@));
            },
            LineCheck::Case(c) => {
                let id = c.id.clone();
                match find_last_seen(&seen_ids, id.as_str()) {
                    Some(k) => {
                        proof {
                            lemma_last_pos_in_range(views(seen_ids@), id@);
                        }
                        let first = seen_lines[k];
                        let mut m: Vec<char> = Vec::new();
                        append_str(&mut m, "Prompt suite duplicate id '");
                        append_str(&mut m, id.as_str());
                        append_str(&mut m, "' at line ");
                        push_decimal(&mut m, n as u64);
                        append_str(&mut m, "; first seen at line ");
                        push_decimal(&mut m, first as u64);
                        let e = err_at_line("prompt_suite_duplicate_id", m, n, Some("id"));
                        errors.push(e);
                        assert(errs_view(errors@) =~= before.errors.push(e@));
                    },
                    None => {
                        prompts.push(c);
                        assert(prompts@.map_values(|p: PromptCase| p@) =~= before.prompts.push(c@));
                    },
                }
                seen_ids.push(id);
                seen_lines.push(n);
                assert(views(seen_ids@) =~= before.seen_ids.push(c@.id));
            },
        }
        i = i + 1;
    }
    assert(lv.take(i as int) =~= lv);
    if errors.len() > 0 {
        return Err(errors);
    }
    if prompts.len() == 0 {
        let mut m: Vec<char> = Vec::new();
        append_str(&mut m, "Prompt suite contains no prompt cases");
        let e = err_at_path("prompt_suite_empty", m, path);
        let out = vec![e];
        assert(errs_view(out@) =~= seq![e@]);
        return Err(out);
    }
    Ok(prompts)
}

/// A prompt suite read from disk: where it is, its digest, and its cases.
#[derive(Debug)]
pub struct ParsedPromptSuite {
    pub path: String,
    pub sha256: String,
    pub prompts: Vec<PromptCase>,
}

/// A prompt suite from the bytes of its file: refused unless the bytes are
/// UTF-8, then parsed line by line (see [`suite_spec`]). `path` is the file
/// as given, named in errors; `canonical_path` the file as recorded; the
/// digest is taken of the bytes.
pub fn parse_prompt_suite_bytes(bytes: Vec<u8>, path: &str, canonical_path: &str) -> (r: Result<
    ParsedPromptSuite,
    Vec<CliError>,
>)
    ensures
        match r {
            Ok(p) => valid_utf8(bytes@) && p.path@ == canonical_path@ && p.sha256@ == sha256_hex_of(bytes@)
                && suite_spec(decode_utf8(bytes@), path@) == Ok::<Seq<PromptCaseView>, Seq<CliErrorView>>(
                p.prompts@.map_values(|c: PromptCase| c@),
            ),
            Err(es) => if valid_utf8(bytes@) {
                suite_spec(decode_utf8(bytes@), path@) == Err::<Seq<PromptCaseView>, Seq<CliErrorView>>(
                    errs_view(es@),
                )
            } else {
                errs_view(es@) == seq![
                    at_path(
                        "prompt_suite_unparseable"@,
                        "Prompt suite is not valid UTF-8: "@ + utf8_error_text(bytes@),
                        path@,
                    ),
                ]
            },
        },
{
    let sha256 = sha256_hex(bytes.as_slice());
    let ghost b = bytes@;
    let content = match decode_utf8_text(bytes) {
        Ok(c) => c,
        Err(e) => {
            let mut m: Vec<char> = Vec::new();
            append_str(&mut m, "Prompt suite is not valid UTF-8: ");
            append_str(&mut m, e.as_str());
            let err = err_at_path("prompt_suite_unparseable", m, path);
            let out = vec![err];
            assert(errs_view(out@) =~= seq![err@]);
            return Err(out);
        },
    };
    let prompts = parse_prompt_suite_text(content.as_str(), path)?;
    Ok(ParsedPromptSuite { path: owned(canonical_path), sha256, prompts })
}

/// The source agent's role document must be UTF-8.
pub fn check_source_role_utf8(bytes: &Vec<u8>) -> (r: Result<(), Vec<CliError>>)
    ensures
        match r {
            Ok(()) => valid_utf8(bytes@),
            Err(es) => !valid_utf8(bytes@) && errs_view(es@) == seq![
                plain_error("source_role_not_utf8"@, "Source Role.md must be valid UTF-8"@),
            ],
        },
{
    match decode_utf8_text(bytes.clone()) {
        Ok(_) => Ok(()),
        Err(_) => {
            let es = vec![err("source_role_not_utf8", "Source Role.md must be valid UTF-8", None)];
            assert(errs_view(es@) =~= seq![
                plain_error("source_role_not_utf8"@, "Source Role.md must be valid UTF-8"@),
            ]);
            Err(es)
        },
    }
}

/// A role file given for a variant must be UTF-8.
pub fn check_role_file_utf8(bytes: &Vec<u8>, variant: &str) -> (r: Result<(), Vec<CliError>>)
    ensures
        match r {
            Ok(()) => valid_utf8(bytes@),
            Err(es) => !valid_utf8(bytes@) && es@.len() == 1 && es@[0].code@ == "role_file_not_utf8"@
                && es@[0].message@ == "Role file must be valid UTF-8"@ && es@[0].variant is Some
                && es@[0].variant->0@ == variant@,
        },
{
    match decode_utf8_text(bytes.clone()) {
        Ok(_) => Ok(()),
        Err(_) => Err(vec![err("role_file_not_utf8", "Role file must be valid UTF-8", Some(variant))]),
    }
}

/// Records a variant's new role: the digest of its bytes and the time.
pub fn record_variant_role(variant: &mut VariantMetadata, bytes: &Vec<u8>, now: &str)
    ensures
        final(variant).role_sha256@ == sha256_hex_of(bytes@),
        final(variant).updated_at@ == now@,
        final(variant).schema_version == old(variant).schema_version,
        final(variant).name == old(variant).name,
        final(variant).source_agent == old(variant).source_agent,
        final(variant).agent_name == old(variant).agent_name,
        final(variant).matrix_path == old(variant).matrix_path,
        final(variant).role_path == old(variant).role_path,
        final(variant).created_at == old(variant).created_at,
{
    variant.role_sha256 = sha256_hex(bytes.as_slice());
    variant.updated_at = owned(now);
}

// ---------------------------------------------------------------------------
// Stored run artifacts.

/// The prompt suite a run used.
#[derive(Debug)]
pub struct RunSuiteArtifact {
    pub path: String,
    pub sha256: String,
    pub prompt_count: usize,
}

/// A variant as a run recorded it.
#[derive(Debug)]
pub struct RunVariantArtifact {
    pub name: String,
    pub agent_name: String,
    pub role_sha256: String,
    pub role_path: String,
}

/// How a run was executed.
#[derive(Debug)]
pub struct RunExecutionArtifact {
    pub provider: String,
    pub attempt_timeout_secs: u64,
    pub max_parallel: u32,
    pub started_at: Option<String>,
    pub completed_at: Option<String>,
    pub cancellation_requested: bool,
    pub executor: String,
}

/// The record of a run.
#[derive(Debug)]
pub struct RunArtifact {
    pub schema_version: u32,
    pub run_id: String,
    pub project: String,
    pub experiment: String,
    pub status: String,
    pub dry_run: bool,
    pub created_at: String,
    pub updated_at: String,
    pub suite: RunSuiteArtifact,
    pub seed: u64,
    pub seed_provided: bool,
    pub replicates: u32,
    pub variants: Vec<RunVariantArtifact>,
    pub attempt_count: usize,
    pub artifacts: RunArtifactPaths,
    pub execution: Option<RunExecutionArtifact>,
    pub workgroup: Option<RunWorkgroupArtifact>,
    pub warnings: Vec<String>,
}

pub open spec fn plain_error(code: Seq<char>, message: Seq<char>) -> CliErrorView {
    CliErrorView { code, message, variant: None, line: None, field: None, path: None }
}

pub open spec fn push_err_if(s: Seq<CliErrorView>, cond: bool, code: Seq<char>, message: Seq<char>) -> Seq<CliErrorView> {
    if cond {
        s.push(plain_error(code, message))
    } else {
        s
    }
}

/// The report names the paths of its own run directory.
pub open spec fn report_paths_match(p: ReportArtifactPaths, run_dir: Seq<char>) -> bool {
    &&& p.run@ == join_path(run_dir, "run.json"@)
    &&& p.attempts@ == join_path(run_dir, "attempts.jsonl"@)
    &&& p.report_json@ == join_path(run_dir, "report.json"@)
    &&& p.report_markdown@ == join_path(run_dir, "report.md"@)
}

/// The report's summary agrees with the run: prompt, variant, replicate and
/// attempt counts, and the status counts add up to the attempts.
pub open spec fn summary_matches(s: ReportSummaryArtifact, run: RunArtifact) -> bool {
    &&& s.prompt_count == run.suite.prompt_count
    &&& s.variant_count == run.variants@.len()
    &&& s.replicates == run.replicates
    &&& s.attempt_count == run.attempt_count
    &&& status_total(s) == run.attempt_count
}

/// The refusals of a stored run and its report, in order.
pub open spec fn report_artifact_errors(
    experiment: Seq<char>,
    run_dir: Seq<char>,
    run_id: Seq<char>,
    run: RunArtifact,
    report: ReportArtifact,
) -> Seq<CliErrorView> {
    let m = "run_artifact_mismatch"@;
    let s0 = push_err_if(
        Seq::empty(),
        run.schema_version != 1 || report.schema_version != 1,
        m,
        "Run artifacts must use schemaVersion 1"@,
    );
    let s1 = push_err_if(
        s0,
        run.run_id@ != run_id || report.run_id@ != run_id,
        m,
        "Run artifact runId values do not match"@,
    );
    let s2 = push_err_if(
        s1,
        run.experiment@ != experiment || report.experiment@ != experiment,
        m,
        "Run artifact experiment values do not match"@,
    );
    let s3 = push_err_if(
        s2,
        !run_status_ok(run.status@),
        "report_run_status_unsupported"@,
        "Run artifact status is not supported"@,
    );
    let s4 = push_err_if(
        s3,
        !run_status_ok(report.status@) || report.status@ != run.status@ || report.dry_run != run.dry_run,
        m,
        "Report artifact status does not match run artifact"@,
    );
    let s5 = push_err_if(
        s4,
        !run.dry_run && run.execution is None,
        m,
        "Real run artifacts must include execution metadata"@,
    );
    let s6 = push_err_if(
        s5,
        !run.dry_run && run.workgroup is None,
        m,
        "Real run artifacts must include workgroup metadata"@,
    );
    let s7 = push_err_if(s6, report.format@ != "json"@, m, "Report artifact format must be json"@);
    let s8 = push_err_if(
        s7,
        !report_paths_match(report.artifact_paths, run_dir),
        m,
        "Report artifactPaths do not match the run artifact paths"@,
    );
    push_err_if(s8, !summary_matches(report.summary, run), m, "Report summary does not match run artifact"@)
}

fn push_plain(errors: &mut Vec<CliError>, cond: bool, code: &str, message: &str)
    ensures
        errs_view(final(errors)@) == push_err_if(errs_view(old(errors)@), cond, code@, message@),
{
    if cond {
        let ghost before = errs_view(errors@);
        let e = err(code, message, None);
        errors.push(e);
        assert(errs_view(errors@) =~= before.push(plain_error(code@, message@)));
    }
}

fn summary_agrees(s: &ReportSummaryArtifact, run: &RunArtifact) -> (r: bool)
    ensures
        r == summary_matches(*s, *run),
{
    if s.prompt_count != run.suite.prompt_count || s.variant_count != run.variants.len()
        || s.replicates != run.replicates || s.attempt_count != run.attempt_count {
        return false;
    }
    let total: u128 = s.planned_attempt_count as u128 + s.running_attempt_count as u128
        + s.completed_attempt_count as u128 + s.failed_attempt_count as u128
        + s.timed_out_attempt_count as u128 + s.inconclusive_attempt_count as u128
        + s.cancelled_attempt_count as u128;
    total == run.attempt_count as u128
}

fn paths_agree(p: &ReportArtifactPaths, run_dir: &str) -> (r: bool)
    ensures
        r == report_paths_match(*p, run_dir@),
{
    let expected = report_artifact_paths(run_dir);
    str_eq(p.run.as_str(), expected.run.as_str()) && str_eq(p.attempts.as_str(), expected.attempts.as_str())
        && str_eq(p.report_json.as_str(), expected.report_json.as_str()) && str_eq(
        p.report_markdown.as_str(),
        expected.report_markdown.as_str(),
    )
}

/// Checks a stored run against its report, for the experiment named
/// `experiment`, the run `run_id` and its directory `run_dir`; every refusal
/// is reported (see [`report_artifact_errors`]).
pub fn validate_report_artifacts(
    experiment: &str,
    run_dir: &str,
    run_id: &str,
    run: &RunArtifact,
    report: &ReportArtifact,
) -> (r: Result<(), Vec<CliError>>)
    ensures
        match r {
            Ok(()) => report_artifact_errors(experiment@, run_dir@, run_id@, *run, *report).len() == 0,
            Err(es) => errs_view(es@) == report_artifact_errors(experiment@, run_dir@, run_id@, *run, *report)
                && es@.len() > 0,
        },
{
    let mut errors: Vec<CliError> = Vec::new();
    assert(errs_view(errors@) =~= Seq::<CliErrorView>::empty());
    let m = "run_artifact_mismatch";
    push_plain(
        &mut errors,
        run.schema_version != 1 || report.schema_version != 1,
        m,
        "Run artifacts must use schemaVersion 1",
    );
    push_plain(
        &mut errors,
        !str_eq(run.run_id.as_str(), run_id) || !str_eq(report.run_id.as_str(), run_id),
        m,
        "Run artifact runId values do not match",
    );
    push_plain(
        &mut errors,
        !str_eq(run.experiment.as_str(), experiment) || !str_eq(report.experiment.as_str(), experiment),
        m,
        "Run artifact experiment values do not match",
    );
    push_plain(
        &mut errors,
        !valid_run_status(run.status.as_str()),
        "report_run_status_unsupported",
        "Run artifact status is not supported",
    );
    push_plain(
        &mut errors,
        !valid_run_status(report.status.as_str()) || !str_eq(report.status.as_str(), run.status.as_str())
            || report.dry_run != run.dry_run,
        m,
        "Report artifact status does not match run artifact",
    );
    push_plain(
        &mut errors,
        !run.dry_run && run.execution.is_none(),
        m,
        "Real run artifacts must include execution metadata",
    );
    push_plain(
        &mut errors,
        !run.dry_run && run.workgroup.is_none(),
        m,
        "Real run artifacts must include workgroup metadata",
    );
    push_plain(&mut errors, !str_eq(report.format.as_str(), "json"), m, "Report artifact format must be json");
    push_plain(
        &mut errors,
        !paths_agree(&report.artifact_paths, run_dir),
        m,
        "Report artifactPaths do not match the run artifact paths",
    );
    push_plain(
        &mut errors,
        !summary_agrees(&report.summary, run),
        m,
        "Report summary does not match run artifact",
    );
    if errors.len() == 0 {
        Ok(())
    } else {
        Err(errors)
    }
}

/// The records of one attempt's ownership of its replica.
#[derive(Debug)]
pub struct AttemptOwnershipArtifact {
    pub schema_version: u32,
    pub run_id: String,
    pub attempt_id: String,
    pub attempt_generation: u32,
    pub session_id: Option<String>,
    pub workgroup_path: String,
    pub replica_root: String,
    pub prompt_path: String,
    pub output_path: String,
    pub started_at: String,
}

pub open spec fn ownership_pair_agrees(done: AttemptOwnershipArtifact, running: AttemptOwnershipArtifact) -> bool {
    &&& done.run_id@ == running.run_id@
    &&& done.attempt_id@ == running.attempt_id@
    &&& done.attempt_generation == running.attempt_generation
    &&& done.workgroup_path@ == running.workgroup_path@
    &&& done.replica_root@ == running.replica_root@
}

/// The finished and the running ownership records of an attempt must agree
/// on run, attempt, generation, workgroup and replica.
pub fn validate_ownership_pair(done: &AttemptOwnershipArtifact, running: &AttemptOwnershipArtifact) -> (r: Result<
    (),
    Vec<CliError>,
>)
    ensures
        match r {
            Ok(()) => ownership_pair_agrees(*done, *running),
            Err(es) => !ownership_pair_agrees(*done, *running) && errs_view(es@) == seq![
                plain_error("run_artifact_mismatch"@, "Attempt ownership records disagree"@),
            ],
        },
{
    if str_eq(done.run_id.as_str(), running.run_id.as_str()) && str_eq(
        done.attempt_id.as_str(),
        running.attempt_id.as_str(),
    ) && done.attempt_generation == running.attempt_generation && str_eq(
        done.workgroup_path.as_str(),
        running.workgroup_path.as_str(),
    ) && str_eq(done.replica_root.as_str(), running.replica_root.as_str()) {
        Ok(())
    } else {
        let out = vec![err("run_artifact_mismatch", "Attempt ownership records disagree", None)];
        assert(errs_view(out@) =~= seq![
            plain_error("run_artifact_mismatch"@, "Attempt ownership records disagree"@),
        ]);
        Err(out)
    }
}

pub open spec fn ownership_matches(
    o: AttemptOwnershipArtifact,
    a: AttemptArtifact,
    workgroup_path: Seq<char>,
    expected_replica: Seq<char>,
) -> bool {
    &&& o.run_id@ == a.run_id@
    &&& o.attempt_id@ == a.attempt_id@
    &&& o.attempt_generation == a.attempt_generation
    &&& o.workgroup_path@ == workgroup_path
    &&& o.replica_root@ == expected_replica
}

/// An ownership record must name the attempt's run, id and generation, the
/// run's workgroup, and the replica the attempt runs in (`expected_replica`,
/// as resolved on disk).
pub fn validate_ownership_matches_attempt(
    ownership: &AttemptOwnershipArtifact,
    attempt: &AttemptArtifact,
    workgroup: &RunWorkgroupArtifact,
    expected_replica: &str,
) -> (r: Result<(), Vec<CliError>>)
    ensures
        match r {
            Ok(()) => ownership_matches(*ownership, *attempt, workgroup.path@, expected_replica@),
            Err(es) => !ownership_matches(*ownership, *attempt, workgroup.path@, expected_replica@)
                && es@.len() == 1 && es@[0]@ == CliErrorView {
                code: "run_artifact_mismatch"@,
                message: "Attempt ownership does not match attempt metadata"@,
                variant: Some(attempt.variant@),
                line: None,
                field: None,
                path: None,
            },
        },
{
    if str_eq(ownership.run_id.as_str(), attempt.run_id.as_str()) && str_eq(
        ownership.attempt_id.as_str(),
        attempt.attempt_id.as_str(),
    ) && ownership.attempt_generation == attempt.attempt_generation && str_eq(
        ownership.workgroup_path.as_str(),
        workgroup.path.as_str(),
    ) && str_eq(ownership.replica_root.as_str(), expected_replica) {
        Ok(())
    } else {
        Err(
            vec![
                err(
                    "run_artifact_mismatch",
                    "Attempt ownership does not match attempt metadata",
                    Some(attempt.variant.as_str()),
                ),
            ],
        )
    }
}

pub open spec fn state_suffix_id(name: Seq<char>) -> Option<Seq<char>> {
    if ends_with(name, ".running.json"@) {
        Some(name.subrange(0, name.len() - ".running.json"@.len()))
    } else if ends_with(name, ".done.json"@) {
        Some(name.subrange(0, name.len() - ".done.json"@.len()))
    } else {
        None
    }
}

/// The attempt an attempt-state file belongs to: its name without the
/// `.running.json` or `.done.json` suffix.
pub fn attempt_state_id(file_name: &str) -> (r: Option<String>)
    ensures
        opt_view(r) == state_suffix_id(file_name@),
{
    let v = chars_of(file_name);
    proof {
        reveal_strlit(".running.json");
        reveal_strlit(".done.json");
    }
    if ends_with_str(&v, ".running.json") {
        let cut = slice_range(&v, 0, v.len() - 13);
        Some(string_of(&cut))
    } else if ends_with_str(&v, ".done.json") {
        let cut = slice_range(&v, 0, v.len() - 10);
        Some(string_of(&cut))
    } else {
        None
    }
}

/// The verdict on one entry of a run's attempt-state directory: the attempt
/// it belongs to, or why it does not belong there.
pub open spec fn state_entry_spec(path: Seq<char>, is_file: bool, file_name: Option<Seq<char>>, ids: Seq<Seq<char>>) -> Result<
    Seq<char>,
    CliErrorView,
> {
    if !is_file {
        Err(at_path("run_artifact_mismatch"@, "Attempt-state entry is not a file: "@ + path, path))
    } else if file_name is None {
        Err(at_path("run_artifact_mismatch"@, "Attempt-state entry has invalid name: "@ + path, path))
    } else if state_suffix_id(file_name->0) is None {
        Err(at_path("run_artifact_mismatch"@, "Attempt-state entry has unsupported name: "@ + path, path))
    } else if !ids.contains(state_suffix_id(file_name->0)->0) {
        Err(at_path("run_artifact_mismatch"@, "Attempt-state entry does not match a run attempt: "@ + path, path))
    } else {
        Ok(state_suffix_id(file_name->0)->0)
    }
}

/// Checks one entry of a run's attempt-state directory (at `path`, a file or
/// not, with its name where it is text) against the run's attempt ids.
pub fn check_state_entry(path: &str, is_file: bool, file_name: Option<&str>, attempt_ids: &Vec<String>) -> (r: Result<
    String,
    CliError,
>)
    ensures
        match (r, state_entry_spec(path@, is_file, str_opt(file_name), views(attempt_ids@))) {
            (Ok(id), Ok(want)) => id@ == want,
            (Err(e), Err(want)) => e@ == want,
            _ => false,
        },
{
    let pv = chars_of(path);
    if !is_file {
        let mut m = chars_of("Attempt-state entry is not a file: ");
        append_chars(&mut m, &pv);
        return Err(err_at_path("run_artifact_mismatch", m, path));
    }
    let name = match file_name {
        Some(n) => n,
        None => {
            let mut m = chars_of("Attempt-state entry has invalid name: ");
            append_chars(&mut m, &pv);
            return Err(err_at_path("run_artifact_mismatch", m, path));
        },
    };
    let id = match attempt_state_id(name) {
        Some(id) => id,
        None => {
            let mut m = chars_of("Attempt-state entry has unsupported name: ");
            append_chars(&mut m, &pv);
            return Err(err_at_path("run_artifact_mismatch", m, path));
        },
    };
    let mut i: usize = 0;
    while i < attempt_ids.len()
        invariant
            i <= attempt_ids@.len(),
            forall|j: int| 0 <= j < i ==> attempt_ids@[j]@ != id@,
            is_file,
            str_opt(file_name) == Some(name@),
            state_suffix_id(name@) == Some(id@),
        decreases attempt_ids@.len() - i,
    {
        if str_eq(attempt_ids[i].as_str(), id.as_str()) {
            assert(views(attempt_ids@)[i as int] == id@);
            assert(views(attempt_ids@).contains(id@));
            return Ok(id);
        }
        i = i + 1;
    }
    assert(!views(attempt_ids@).contains(id@)) by {
        if views(attempt_ids@).contains(id@) {
            let k = choose|k: int| 0 <= k < views(attempt_ids@).len() && views(attempt_ids@)[k] == id@;
            assert(attempt_ids@[k]@ == id@);
        }
    }
    let mut m = chars_of("Attempt-state entry does not match a run attempt: ");
    append_chars(&mut m, &pv);
    Err(err_at_path("run_artifact_mismatch", m, path))
}

/// Attempt-ownership files have schema version 1.
pub fn check_ownership_schema(schema_version: u32, path: &str) -> (r: Result<(), CliError>)
    ensures
        r is Ok <==> schema_version == 1,
        r matches Err(e) ==> e@ == at_path(
            "run_artifact_mismatch"@,
            "Attempt ownership schemaVersion must be 1"@,
            path@,
        ),
{
    if schema_version == 1 {
        Ok(())
    } else {
        Err(err_at_path("run_artifact_mismatch", chars_of("Attempt ownership schemaVersion must be 1"), path))
    }
}

// ---------------------------------------------------------------------------
// Executing attempts.

/// Whether an attempt runs in this pass: a first pass runs the planned
/// attempts; a retry pass the failed, timed-out and inconclusive ones.
pub open spec fn should_run_spec(status: Seq<char>, retry_failed: bool) -> bool {
    if retry_failed {
        status == "failed"@ || status == "timed_out"@ || status == "inconclusive"@
    } else {
        status == "planned"@
    }
}

/// Whether `attempt` runs in this pass (see [`should_run_spec`]).
pub fn attempt_should_run(attempt: &AttemptArtifact, retry_failed: bool) -> (r: bool)
    ensures
        r == should_run_spec(attempt.status@, retry_failed),
{
    if retry_failed {
        str_eq(attempt.status.as_str(), "failed") || str_eq(attempt.status.as_str(), "timed_out") || str_eq(
            attempt.status.as_str(),
            "inconclusive",
        )
    } else {
        str_eq(attempt.status.as_str(), "planned")
    }
}

/// The attempt's identity and plan, which running it leaves alone.
pub open spec fn same_plan(a: AttemptArtifact, b: AttemptArtifact) -> bool {
    &&& a.schema_version == b.schema_version
    &&& a.attempt_id@ == b.attempt_id@
    &&& a.run_id@ == b.run_id@
    &&& a.prompt_id@ == b.prompt_id@
    &&& a.prompt_title@ == b.prompt_title@
    &&& a.prompt_line == b.prompt_line
    &&& a.variant@ == b.variant@
    &&& a.agent_name@ == b.agent_name@
    &&& a.replicate == b.replicate
    &&& views(a.tags@) == views(b.tags@)
    &&& views(a.expected_behaviors@) == views(b.expected_behaviors@)
}

pub open spec fn some_text(o: Option<String>, t: Seq<char>) -> bool {
    o is Some && o->0@ == t
}

/// An attempt as it starts: on a retry its generation is one higher and it
/// is flagged `retry_failed`; it is `running`, with its start time, prompt
/// and output files, replica, workgroup and provider recorded.
pub fn begin_attempt(
    attempt: &mut AttemptArtifact,
    retry_failed: bool,
    started_at: &str,
    prompt_path: &str,
    output_path: &str,
    replica_root: &str,
    workgroup_name: &str,
    provider: &str,
)
    requires
        retry_failed ==> old(attempt).attempt_generation < u32::MAX,
    ensures
        same_plan(*final(attempt), *old(attempt)),
        final(attempt).attempt_generation == old(attempt).attempt_generation + (if retry_failed {
            1int
        } else {
            0int
        }),
        views(final(attempt).flags@) == (if retry_failed {
            views(old(attempt).flags@).push("retry_failed"@)
        } else {
            views(old(attempt).flags@)
        }),
        final(attempt).status@ == "running"@,
        some_text(final(attempt).started_at, started_at@),
        some_text(final(attempt).prompt_path, prompt_path@),
        some_text(final(attempt).output_path, output_path@),
        some_text(final(attempt).replica_root, replica_root@),
        some_text(final(attempt).workgroup, workgroup_name@),
        some_text(final(attempt).provider, provider@),
        final(attempt).duration_ms == old(attempt).duration_ms,
        final(attempt).completed_at == old(attempt).completed_at,
        final(attempt).failure_reason == old(attempt).failure_reason,
        final(attempt).exit_code == old(attempt).exit_code,
{
    if retry_failed {
        attempt.attempt_generation = attempt.attempt_generation + 1;
        let ghost before = views(attempt.flags@);
        attempt.flags.push(owned("retry_failed"));
        assert(views(attempt.flags@) =~= before.push("retry_failed"@));
    }
    attempt.status = owned("running");
    attempt.started_at = Some(owned(started_at));
    attempt.prompt_path = Some(owned(prompt_path));
    attempt.output_path = Some(owned(output_path));
    attempt.replica_root = Some(owned(replica_root));
    attempt.workgroup = Some(owned(workgroup_name));
    attempt.provider = Some(owned(provider));
}

/// An attempt as it ends: the executor's status, time, transcripts, output,
/// failure reason and exit code; its flags added; its completion time; no
/// session.
pub fn finish_attempt(attempt: &mut AttemptArtifact, result: AttemptExecutionResult, completed_at: &str)
    ensures
        same_plan(*final(attempt), *old(attempt)),
        final(attempt).attempt_generation == old(attempt).attempt_generation,
        final(attempt).status@ == result.status@,
        final(attempt).duration_ms == result.duration_ms,
        final(attempt).transcript_path == result.transcript_path,
        final(attempt).provider_transcript_path == result.provider_transcript_path,
        final(attempt).output_path == result.output_path,
        final(attempt).failure_reason == result.failure_reason,
        final(attempt).exit_code == result.exit_code,
        views(final(attempt).flags@) == views(old(attempt).flags@) + views(result.flags@),
        some_text(final(attempt).completed_at, completed_at@),
        final(attempt).session_id is None,
        final(attempt).started_at == old(attempt).started_at,
        final(attempt).prompt_path == old(attempt).prompt_path,
        final(attempt).replica_root == old(attempt).replica_root,
        final(attempt).workgroup == old(attempt).workgroup,
        final(attempt).provider == old(attempt).provider,
{
    attempt.status = result.status;
    attempt.duration_ms = result.duration_ms;
    attempt.transcript_path = result.transcript_path;
    attempt.provider_transcript_path = result.provider_transcript_path;
    attempt.output_path = result.output_path;
    attempt.failure_reason = result.failure_reason;
    attempt.exit_code = result.exit_code;
    let mut flags = crate::text::clone_strings(&attempt.flags);
    let ghost before = views(flags@);
    let extra = result.flags;
    let mut i: usize = 0;
    while i < extra.len()
        invariant
            i <= extra@.len(),
            views(flags@) == before + views(extra@).take(i as int),
        decreases extra@.len() - i,
    {
        let ghost prev = views(flags@);
        flags.push(extra[i].clone());
        assert(views(flags@) =~= prev.push(extra@[i as int]@));
        assert(views(extra@).take(i + 1) =~= views(extra@).take(i as int).push(extra@[i as int]@));
        assert(views(flags@) =~= before + views(extra@).take(i + 1));
        i = i + 1;
    }
    assert(views(extra@).take(i as int) =~= views(extra@));
    attempt.flags = flags;
    attempt.completed_at = Some(owned(completed_at));
    attempt.session_id = None;
}

/// The ownership record written while an attempt runs and when it is done.
pub fn attempt_ownership(
    run_id: &str,
    attempt: &AttemptArtifact,
    workgroup_path: &str,
    replica_root: &str,
    prompt_path: &str,
    output_path: &str,
    started_at: &str,
) -> (o: AttemptOwnershipArtifact)
    ensures
        o.schema_version == 1,
        o.run_id@ == run_id@,
        o.attempt_id@ == attempt.attempt_id@,
        o.attempt_generation == attempt.attempt_generation,
        o.session_id is None,
        o.workgroup_path@ == workgroup_path@,
        o.replica_root@ == replica_root@,
        o.prompt_path@ == prompt_path@,
        o.output_path@ == output_path@,
        o.started_at@ == started_at@,
{
    AttemptOwnershipArtifact {
        schema_version: 1,
        run_id: owned(run_id),
        attempt_id: attempt.attempt_id.clone(),
        attempt_generation: attempt.attempt_generation,
        session_id: None,
        workgroup_path: owned(workgroup_path),
        replica_root: owned(replica_root),
        prompt_path: owned(prompt_path),
        output_path: owned(output_path),
        started_at: owned(started_at),
    }
}

/// A non-fatal finding of a role-experiment command.
#[derive(Debug)]
pub struct CliWarning {
    pub code: String,
    pub message: String,
    pub variant: Option<String>,
}

/// A warning with a code, a message and possibly a variant.
pub fn warn(code: &str, message: &str, variant: Option<String>) -> (w: CliWarning)
    ensures
        w.code@ == code@,
        w.message@ == message@,
        w.variant == variant,
{
    CliWarning { code: owned(code), message: owned(message), variant }
}

/// The warning, if any, for a variant's role document compared with the
/// control's: identical, or fewer than three changed lines.
pub fn role_diff_warning(control_text: &str, variant: &str, variant_text: &str) -> (r: Option<CliWarning>)
    requires
        lines(control_text@).len() + lines(variant_text@).len() <= usize::MAX,
    ensures
        match r {
            None => control_text@ != variant_text@ && changed_count(control_text@, variant_text@) >= 3,
            Some(w) => w.variant is Some && w.variant->0@ == variant@ && if control_text@ == variant_text@ {
                w.code@ == "variant_role_identical_to_control"@ && w.message@
                    == "Variant Role.md is identical to control"@
            } else {
                changed_count(control_text@, variant_text@) < 3 && w.code@
                    == "variant_role_tiny_diff_from_control"@ && w.message@
                    == "Variant differs from control by fewer than 3 changed lines"@
            },
        },
{
    let (_, stats) = line_diff("control", variant, control_text, variant_text);
    if stats.identical {
        Some(warn("variant_role_identical_to_control", "Variant Role.md is identical to control", Some(owned(variant))))
    } else if stats.changed_lines < 3 {
        Some(
            warn(
                "variant_role_tiny_diff_from_control",
                "Variant differs from control by fewer than 3 changed lines",
                Some(owned(variant)),
            ),
        )
    } else {
        None
    }
}

/// The warnings every fake-executor run reports.
pub fn fake_run_warnings() -> (ws: Vec<CliWarning>)
    ensures
        ws@.len() == 4,
        ws@[0].code@ == "run_workgroup_retained"@,
        ws@[1].code@ == "transcript_capture_best_effort"@,
        ws@[2].code@ == "no_scoring"@,
        ws@[3].code@ == "real_execution_deferred"@,
        forall|i: int| 0 <= i < 4 ==> (#[trigger] ws@[i]).variant is None,
{
    vec![
        warn(
            "run_workgroup_retained",
            "Run workgroup was retained for inspection; cleanup is not implemented in Phase 3A.",
            None,
        ),
        warn(
            "transcript_capture_best_effort",
            "Provider-native transcript paths may be unavailable; use run metadata and retained workgroup for inspection.",
            None,
        ),
        warn("no_scoring", "Phase 3A does not score attempts or select winners.", None),
        warn(
            "real_execution_deferred",
            "Real PTY execution is deferred until an app or daemon runtime bridge is available.",
            None,
        ),
    ]
}

/// The text handed to an attempt's session: where its prompt file is,
/// delimited and quoted.
pub fn build_attempt_injection(prompt_path: &str) -> (out: String)
    ensures
        out@ == "Role experiment attempt.\n\nRead the prompt file at the exact path below. The path is delimited and quoted for Windows shells:\n\n```role-experiment-path\n\""@
            + prompt_path@ + "\"\n```\n\nWhen complete, include a concise final answer in this session.\n"@,
{
    let mut v: Vec<char> = Vec::new();
    append_str(
        &mut v,
        "Role experiment attempt.\n\nRead the prompt file at the exact path below. The path is delimited and quoted for Windows shells:\n\n```role-experiment-path\n\"",
    );
    append_str(&mut v, prompt_path);
    append_str(&mut v, "\"\n```\n\nWhen complete, include a concise final answer in this session.\n");
    string_of(&v)
}

pub open spec fn attempt_prompt_spec(a: AttemptArtifact, prompt: Seq<char>) -> Seq<char> {
    "# Role Experiment Attempt\n\nRun: "@ + a.run_id@ + "\nAttempt: "@ + a.attempt_id@ + "\nVariant: "@
        + a.variant@ + "\nPrompt: "@ + a.prompt_id@ + "\nReplicate: "@ + decimal(a.replicate as nat)
        + "\n\n## Runner Instructions\n\nRespond to the prompt below. Do not modify files outside paths allowed by your session instructions.\n\n## Prompt\n\n"@
        + prompt + "\n"@
}

/// The prompt file of an attempt: its run, id, variant, prompt and
/// replicate, the runner instructions, then the prompt.
pub fn attempt_prompt_text(attempt: &AttemptArtifact, prompt: &PromptCase) -> (out: String)
    ensures
        out@ == attempt_prompt_spec(*attempt, prompt.prompt@),
{
    let mut v: Vec<char> = Vec::new();
    append_str(&mut v, "# Role Experiment Attempt\n\nRun: ");
    append_str(&mut v, attempt.run_id.as_str());
    append_str(&mut v, "\nAttempt: ");
    append_str(&mut v, attempt.attempt_id.as_str());
    append_str(&mut v, "\nVariant: ");
    append_str(&mut v, attempt.variant.as_str());
    append_str(&mut v, "\nPrompt: ");
    append_str(&mut v, attempt.prompt_id.as_str());
    append_str(&mut v, "\nReplicate: ");
    push_decimal(&mut v, attempt.replicate as u64);
    append_str(
        &mut v,
        "\n\n## Runner Instructions\n\nRespond to the prompt below. Do not modify files outside paths allowed by your session instructions.\n\n## Prompt\n\n",
    );
    append_str(&mut v, prompt.prompt.as_str());
    append_str(&mut v, "\n");
    string_of(&v)
}

/// The `idx`-th run id tried for a generated run: the base, then the base
/// with `-02` to `-99`.
pub open spec fn generated_run_id_spec(base: Seq<char>, idx: nat) -> Seq<char> {
    if idx == 1 {
        base
    } else {
        base + seq!['-', (('0' as int) + idx / 10) as char, (('0' as int) + idx % 10) as char]
    }
}

/// Every run id tried for a generated run passes the run-id check, when its
/// base (the creation time as `YYYYMMDD-HHMMSS`) does.
pub proof fn lemma_generated_run_ids_valid(base: Seq<char>, idx: nat)
    requires
        base.len() == 15,
        run_id_base(base),
        1 <= idx <= 99,
    ensures
        run_id_ok(generated_run_id_spec(base, idx)),
{
    if idx > 1 {
        let s = generated_run_id_spec(base, idx);
        assert(idx / 10 < 10 && idx % 10 < 10) by (nonlinear_arith)
            requires
                1 <= idx <= 99,
        ;
        assert(!(idx / 10 == 0 && idx % 10 == 0)) by (nonlinear_arith)
            requires
                2 <= idx,
        ;
        assert(s.len() == 18);
        assert forall|i: int| 0 <= i < 8 implies digit(#[trigger] s[i]) by {
            assert(s[i] == base[i]);
        }
        assert forall|i: int| 9 <= i < 15 implies digit(#[trigger] s[i]) by {
            assert(s[i] == base[i]);
        }
        assert(s[8] == base[8]);
        assert(run_id_base(s));
    }
}

/// The `idx`-th run id tried for a generated run (see
/// [`generated_run_id_spec`]).
pub fn generated_run_id(base: &str, idx: u32) -> (out: String)
    requires
        1 <= idx <= 99,
    ensures
        out@ == generated_run_id_spec(base@, idx as nat),
{
    if idx == 1 {
        return owned(base);
    }
    let mut v = chars_of(base);
    let ds = ['0', '1', '2', '3', '4', '5', '6', '7', '8', '9'];
    v.push('-');
    v.push(ds[(idx / 10) as usize]);
    v.push(ds[(idx % 10) as usize]);
    proof {
        let t = idx / 10;
        let o = idx % 10;
        assert(ds@[t as int] == (('0' as int) + t) as char) by {
            assert(0 <= t < 10);
        }
        assert(ds@[o as int] == (('0' as int) + o) as char);
        assert(v@ =~= base@ + seq!['-', (('0' as int) + idx / 10) as char, (('0' as int) + idx % 10) as char]);
    }
    string_of(&v)
}


/// `flags` with `flag` added unless it is there.
pub open spec fn with_flag(flags: Seq<Seq<char>>, flag: Seq<char>) -> Seq<Seq<char>> {
    if flags.contains(flag) {
        flags
    } else {
        flags.push(flag)
    }
}

/// Flagging an attempt again changes nothing: a flag is added at most once.
pub proof fn lemma_flag_added_once(flags: Seq<Seq<char>>, flag: Seq<char>)
    ensures
        with_flag(with_flag(flags, flag), flag) == with_flag(flags, flag),
        with_flag(flags, flag).contains(flag),
{
    if !flags.contains(flag) {
        assert(flags.push(flag)[flags.len() as int] == flag);
    }
}

/// How an attempt of a resumed run stands after its ownership records are
/// read: one that was running when the run stopped (a running record and no
/// done record) is, unless failures are being retried, inconclusive with the
/// reason `stale_running_attempt`, flagged so once.
pub fn reconcile_attempt(attempt: &mut AttemptArtifact, done_present: bool, running_present: bool, retry_failed: bool)
    ensures
        same_plan(*final(attempt), *old(attempt)),
        final(attempt).attempt_generation == old(attempt).attempt_generation,
        if !done_present && running_present && !retry_failed {
            &&& final(attempt).status@ == "inconclusive"@
            &&& some_text(final(attempt).failure_reason, "stale_running_attempt"@)
            &&& views(final(attempt).flags@) == with_flag(views(old(attempt).flags@), "stale_running_attempt"@)
        } else {
            &&& final(attempt).status == old(attempt).status
            &&& final(attempt).failure_reason == old(attempt).failure_reason
            &&& final(attempt).flags == old(attempt).flags
        },
        final(attempt).started_at == old(attempt).started_at,
        final(attempt).completed_at == old(attempt).completed_at,
        final(attempt).output_path == old(attempt).output_path,
{
    if done_present || !running_present || retry_failed {
        return;
    }
    attempt.status = owned("inconclusive");
    attempt.failure_reason = Some(owned("stale_running_attempt"));
    let mut i: usize = 0;
    let mut seen = false;
    while i < attempt.flags.len()
        invariant
            i <= attempt.flags@.len(),
            seen == views(attempt.flags@).take(i as int).contains("stale_running_attempt"@),
        decreases attempt.flags@.len() - i,
    {
        let ghost t = views(attempt.flags@);
        let ghost x = "stale_running_attempt"@;
        let ghost a = t.take(i as int);
        let ghost b = t.take(i + 1);
        assert(b =~= a.push(t[i as int]));
        proof {
            if a.contains(x) {
                let k = choose|k: int| 0 <= k < a.len() && a[k] == x;
                assert(b[k] == x);
            }
            if b.contains(x) && t[i as int] != x {
                let k = choose|k: int| 0 <= k < b.len() && b[k] == x;
                assert(k < a.len() && a[k] == x);
            }
            if t[i as int] == x {
                assert(b[i as int] == x);
            }
        }
        if str_eq(attempt.flags[i].as_str(), "stale_running_attempt") {
            seen = true;
        }
        i = i + 1;
    }
    assert(views(attempt.flags@).take(i as int) =~= views(attempt.flags@));
    if !seen {
        let ghost t = views(attempt.flags@);
        attempt.flags.push(owned("stale_running_attempt"));
        assert(views(attempt.flags@) =~= t.push("stale_running_attempt"@));
    }
}

/// The name of a run's workgroup: the next workgroup number and the
/// experiment's slug, `wg-<n>-role-exp-<slug>`.
pub fn run_workgroup_name(number: u32, experiment_slug: &str) -> (out: String)
    ensures
        out@ == "wg-"@ + decimal(number as nat) + "-role-exp-"@ + experiment_slug@,
{
    let mut v: Vec<char> = Vec::new();
    append_str(&mut v, "wg-");
    push_decimal(&mut v, number as u64);
    append_str(&mut v, "-role-exp-");
    append_str(&mut v, experiment_slug);
    string_of(&v)
}

/// The `TASK.md` of a run's workgroup.
pub fn run_task_text(experiment: &str, run_id: &str) -> (out: String)
    ensures
        out@ == "# Role Experiment Run\n\nExperiment: "@ + experiment@ + "\nRun: "@ + run_id@ + "\n"@,
{
    let mut v: Vec<char> = Vec::new();
    append_str(&mut v, "# Role Experiment Run\n\nExperiment: ");
    append_str(&mut v, experiment);
    append_str(&mut v, "\nRun: ");
    append_str(&mut v, run_id);
    append_str(&mut v, "\n");
    string_of(&v)
}

/// The number of leading decimal digits of `s`.
pub open spec fn leading_digits(s: Seq<char>) -> nat
    decreases s.len(),
{
    if s.len() > 0 && digit(s[0]) {
        1 + leading_digits(s.drop_first())
    } else {
        0
    }
}

/// The value of a string of decimal digits.
pub open spec fn digits_value(s: Seq<char>) -> nat
    decreases s.len(),
{
    if s.len() == 0 {
        0
    } else {
        digits_value(s.drop_last()) * 10 + ((s.last() as int) - ('0' as int)) as nat
    }
}

/// The number of a directory named `wg-<digits>...`: its leading digits
/// after `wg-`, when there are some and they read as a `u32`.
pub open spec fn wg_number(name: Seq<char>) -> Option<nat> {
    if starts_with(name, "wg-"@) {
        let rest = name.subrange(3, name.len() as int);
        let k = leading_digits(rest);
        if k > 0 && digits_value(rest.take(k as int)) <= u32::MAX {
            Some(digits_value(rest.take(k as int)))
        } else {
            None
        }
    } else {
        None
    }
}

/// The highest workgroup number among `names`, or 0.
pub open spec fn max_wg_number(names: Seq<Seq<char>>) -> nat
    decreases names.len(),
{
    if names.len() == 0 {
        0
    } else {
        let m = max_wg_number(names.drop_last());
        match wg_number(names.last()) {
            Some(n) => if n > m {
                n
            } else {
                m
            },
            None => m,
        }
    }
}

proof fn lemma_leading_digits(s: Seq<char>, j: int)
    requires
        0 <= j <= s.len(),
        forall|i: int| 0 <= i < j ==> digit(#[trigger] s[i]),
        j < s.len() ==> !digit(s[j]),
    ensures
        leading_digits(s) == j,
    decreases j,
{
    if j > 0 {
        assert forall|i: int| 0 <= i < j - 1 implies digit(#[trigger] s.drop_first()[i]) by {
            assert(s.drop_first()[i] == s[i + 1]);
        }
        lemma_leading_digits(s.drop_first(), j - 1);
    }
}

proof fn lemma_max_wg_bound(names: Seq<Seq<char>>)
    ensures
        max_wg_number(names) <= u32::MAX,
    decreases names.len(),
{
    if names.len() > 0 {
        lemma_max_wg_bound(names.drop_last());
    }
}

/// The number of `name` as a workgroup (see [`wg_number`]).
pub fn wg_number_of(name: &str) -> (r: Option<u32>)
    ensures
        match r {
            Some(n) => wg_number(name@) == Some(n as nat),
            None => wg_number(name@) is None,
        },
{
    let v = chars_of(name);
    proof {
        reveal_strlit("wg-");
    }
    if !starts_with_str(&v, "wg-") {
        return None;
    }
    let ghost rest = v@.subrange(3, v@.len() as int);
    let mut j: usize = 3;
    let mut value: u64 = 0;
    let mut over = false;
    while j < v.len() && '0' <= v[j] && v[j] <= '9'
        invariant
            3 <= j <= v@.len(),
            rest == v@.subrange(3, v@.len() as int),
            forall|i: int| 0 <= i < j - 3 ==> digit(#[trigger] rest[i]),
            !over ==> value == digits_value(rest.take(j - 3)) && value <= u32::MAX,
            over ==> digits_value(rest.take(j - 3)) > u32::MAX,
        decreases v@.len() - j,
    {
        let ghost t = rest.take(j - 3 + 1);
        assert(t.drop_last() =~= rest.take(j - 3));
        assert(t.last() == v@[j as int]);
        let d = (v[j] as u32 - '0' as u32) as u64;
        assert(digits_value(t) == digits_value(rest.take(j - 3)) * 10 + d);
        if !over {
            let next = value * 10 + d;
            if next > u32::MAX as u64 {
                over = true;
            } else {
                value = next;
            }
        } else {
            assert(digits_value(t) >= digits_value(rest.take(j - 3))) by (nonlinear_arith)
                requires
                    digits_value(t) == digits_value(rest.take(j - 3)) * 10 + d,
            ;
        }
        j = j + 1;
    }
    proof {
        lemma_leading_digits(rest, j - 3);
    }
    if j == 3 || over {
        None
    } else {
        Some(value as u32)
    }
}

/// The number of a run's new workgroup: one past the highest workgroup number
/// among the entries of the Project AC Root (see [`wg_number`]).
pub fn next_workgroup_number(names: &Vec<String>) -> (r: u32)
    requires
        max_wg_number(views(names@)) < u32::MAX,
    ensures
        r == max_wg_number(views(names@)) + 1,
{
    let ghost nv = views(names@);
    let mut max: u32 = 0;
    let mut i: usize = 0;
    while i < names.len()
        invariant
            i <= names@.len(),
            nv == views(names@),
            max == max_wg_number(nv.take(i as int)),
        decreases names@.len() - i,
    {
        assert(nv.take(i + 1).drop_last() =~= nv.take(i as int));
        assert(nv.take(i + 1).last() == names@[i as int]@);
        match wg_number_of(names[i].as_str()) {
            Some(n) => {
                if n > max {
                    max = n;
                }
            },
            None => {},
        }
        i = i + 1;
    }
    assert(nv.take(i as int) =~= nv);
    max + 1
}

/// The matrix directory of the source agent in the Project AC Root.
pub fn source_matrix_path(workspace_dir: &str, source_agent: &str) -> (out: String)
    ensures
        out@ == join_path(workspace_dir@, "_agent_"@ + source_agent@),
{
    let mut name: Vec<char> = Vec::new();
    append_str(&mut name, "_agent_");
    append_str(&mut name, source_agent);
    let n = string_of(&name);
    join_path_exec(workspace_dir, n.as_str())
}

/// The matrix directory of a variant: the source agent's name and the
/// variant's (see [`variant_agent_name`]).
pub fn variant_matrix_path(workspace_dir: &str, source_agent: &str, variant: &str) -> (out: String)
    ensures
        out@ == join_path(workspace_dir@, "_agent_"@ + source_agent@ + "-"@ + variant@),
{
    let agent = variant_agent_name(source_agent, variant);
    let out = source_matrix_path(workspace_dir, agent.as_str());
    assert("_agent_"@ + agent@ =~= "_agent_"@ + source_agent@ + "-"@ + variant@);
    out
}

/// A path's components name a Room replica's role document:
/// `.ac/wg-*/__agent_*/Role.md` somewhere along it.
pub open spec fn replica_role_at(cs: Seq<Seq<char>>, i: int) -> bool {
    &&& 0 <= i && i + 4 <= cs.len()
    &&& cs[i] == ".ac"@
    &&& starts_with(cs[i + 1], "wg-"@)
    &&& starts_with(cs[i + 2], "__agent_"@)
    &&& cs[i + 3] == "Role.md"@
}

/// Whether a path, given by its components, is a Room replica's role
/// document (see [`replica_role_at`]).
pub fn is_replica_role_file(components: &Vec<String>) -> (r: bool)
    ensures
        r == exists|i: int| #[trigger] replica_role_at(views(components@), i),
{
    let ghost cs = views(components@);
    proof {
        reveal_strlit("wg-");
        reveal_strlit("__agent_");
    }
    if components.len() < 4 {
        assert forall|i: int| !#[trigger] replica_role_at(cs, i) by {}
        return false;
    }
    let mut i: usize = 0;
    let last: usize = components.len() - 4;
    while i <= last
        invariant
            cs == views(components@),
            components@.len() >= 4,
            last == components@.len() - 4,
            components@.len() <= usize::MAX,
            i <= last + 1,
            forall|k: int| 0 <= k < i ==> !#[trigger] replica_role_at(cs, k),
        decreases last + 1 - i,
    {
        let a = chars_of(components[i + 1].as_str());
        let b = chars_of(components[i + 2].as_str());
        if str_eq(components[i].as_str(), ".ac") && starts_with_str(&a, "wg-") && starts_with_str(&b, "__agent_")
            && str_eq(components[i + 3].as_str(), "Role.md") {
            assert(replica_role_at(cs, i as int));
            return true;
        }
        i = i + 1;
    }
    assert forall|k: int| !#[trigger] replica_role_at(cs, k) by {
        if 0 <= k && k + 4 <= cs.len() {
            assert(k < i);
        }
    }
    false
}

/// A workgroup whose replicas may override a variant's role: a numbered
/// workgroup that is not a role-experiment run's own.
pub fn is_override_workgroup(name: &str) -> (r: bool)
    ensures
        r == (starts_with(name@, "wg-"@) && !contains_sub(name@, "-role-exp-"@)),
{
    let v = chars_of(name);
    starts_with_str(&v, "wg-") && !contains_str(&v, "-role-exp-")
}

/// `report --format` accepts `text` and `json` only.
pub fn validate_report_format(format: &str) -> (r: Result<(), Vec<CliError>>)
    ensures
        match r {
            Ok(()) => format@ == "text"@ || format@ == "json"@,
            Err(es) => format@ != "text"@ && format@ != "json"@ && errs_view(es@) == seq![
                plain_error("report_format_invalid"@, "--format must be text or json"@),
            ],
        },
{
    if str_eq(format, "text") || str_eq(format, "json") {
        Ok(())
    } else {
        let es = vec![err("report_format_invalid", "--format must be text or json", None)];
        assert(errs_view(es@) =~= seq![plain_error("report_format_invalid"@, "--format must be text or json"@)]);
        Err(es)
    }
}

/// The warning `validate` gives when the prompts times the variants exceed 50.
pub fn validate_size_warning(prompt_count: usize, variant_count: usize) -> (r: Option<CliWarning>)
    ensures
        r is Some <==> prompt_count * variant_count > 50,
        r matches Some(w) ==> w.code@ == "large_run_size"@ && w.message@
            == "Prompt count multiplied by variant count exceeds 50"@ && w.variant is None,
{
    let big = match prompt_count.checked_mul(variant_count) {
        Some(n) => n > 50,
        None => true,
    };
    if big {
        Some(warn("large_run_size", "Prompt count multiplied by variant count exceeds 50", None))
    } else {
        None
    }
}

/// The warning a dry run gives when it plans more than 50 attempts.
pub fn dry_run_size_warning(attempt_count: usize) -> (r: Option<CliWarning>)
    ensures
        r is Some <==> attempt_count > 50,
        r matches Some(w) ==> w.code@ == "large_run_size"@ && w.message@
            == "Prompt count multiplied by variant count and replicates exceeds 50"@ && w.variant is None,
{
    if attempt_count > 50 {
        Some(warn("large_run_size", "Prompt count multiplied by variant count and replicates exceeds 50", None))
    } else {
        None
    }
}

/// What `variant diff` reports of two variants' role documents: the line diff
/// from `against` to `variant`, its counts, and a warning when the two are
/// identical.
pub fn variant_diff_outcome(against: &str, variant: &str, left_text: &str, right_text: &str) -> (r: (
    String,
    DiffStats,
    Option<CliWarning>,
))
    requires
        lines(left_text@).len() + lines(right_text@).len() <= usize::MAX,
    ensures
        r.0@ == line_diff_text(against@, variant@, left_text@, right_text@),
        r.1.identical == (left_text@ == right_text@),
        left_text@ != right_text@ ==> ({
            let ls = lines(left_text@);
            let rs = lines(right_text@);
            let n = max_nat(ls.len(), rs.len());
            &&& r.1.added_lines == added_count(ls, rs, n)
            &&& r.1.removed_lines == removed_count(ls, rs, n)
            &&& r.1.changed_lines == r.1.added_lines + r.1.removed_lines
        }),
        left_text@ == right_text@ ==> r.1.added_lines == 0 && r.1.removed_lines == 0 && r.1.changed_lines == 0,
        r.2 is Some <==> left_text@ == right_text@,
        r.2 matches Some(w) ==> w.code@ == "variant_role_identical"@ && w.message@
            == "Variant roles are identical"@ && w.variant is Some && w.variant->0@ == variant@,
{
    let (diff, stats) = line_diff(against, variant, left_text, right_text);
    let warning = if stats.identical {
        Some(warn("variant_role_identical", "Variant roles are identical", Some(owned(variant))))
    } else {
        None
    };
    (diff, stats, warning)
}

/// The two-digit, zero-padded form of a retry number below 100.
pub open spec fn two_digits(n: nat) -> Seq<char> {
    if n < 10 {
        "0"@ + decimal(n)
    } else {
        decimal(n)
    }
}

/// The name of an attempt's output file in slot `slot`: `<id>.txt` for the
/// first, `<id>.retry-NN.txt` for the retries after it.
pub open spec fn output_name_spec(attempt_id: Seq<char>, slot: nat) -> Seq<char> {
    if slot == 0 {
        attempt_id + ".txt"@
    } else {
        attempt_id + ".retry-"@ + two_digits(slot) + ".txt"@
    }
}

/// The name of an attempt's output file in slot `slot` (below 100).
pub fn attempt_output_name(attempt_id: &str, slot: u32) -> (out: String)
    requires
        slot < 100,
    ensures
        out@ == output_name_spec(attempt_id@, slot as nat),
{
    let mut v: Vec<char> = Vec::new();
    append_str(&mut v, attempt_id);
    if slot == 0 {
        append_str(&mut v, ".txt");
    } else {
        append_str(&mut v, ".retry-");
        let ghost head = v@;
        if slot < 10 {
            v.push('0');
            proof {
                reveal_strlit("0");
            }
            assert(v@ =~= head + "0"@);
        }
        push_decimal(&mut v, slot as u64);
        assert(v@ =~= head + two_digits(slot as nat));
        append_str(&mut v, ".txt");
        assert(v@ =~= attempt_id@ + ".retry-"@ + two_digits(slot as nat) + ".txt"@);
    }
    string_of(&v)
}

/// Whether output slot `i` is already taken, by what was found on disk
/// (a slot past the end of `taken` was not found).
pub open spec fn slot_taken(taken: Seq<bool>, i: int) -> bool {
    0 <= i < taken.len() && taken[i]
}

/// The name of the first free output slot of an attempt among the hundred it
/// may use; an error when all are taken.
pub fn next_attempt_output_name(attempt_id: &str, taken: &Vec<bool>) -> (r: Result<String, Vec<CliError>>)
    ensures
        match r {
            Ok(name) => exists|k: int|
                0 <= k < 100 && !slot_taken(taken@, k) && (forall|j: int| 0 <= j < k ==> slot_taken(taken@, j))
                    && name@ == output_name_spec(attempt_id@, k as nat),
            Err(es) => (forall|j: int| 0 <= j < 100 ==> slot_taken(taken@, j)) && errs_view(es@) == seq![
                plain_error("run_artifact_write_failed"@, "Too many retry output files for attempt"@),
            ],
        },
{
    let mut i: u32 = 0;
    while i < 100
        invariant
            i <= 100,
            forall|j: int| 0 <= j < i ==> slot_taken(taken@, j),
        decreases 100 - i,
    {
        let used = (i as usize) < taken.len() && taken[i as usize];
        if !used {
            let name = attempt_output_name(attempt_id, i);
            assert(!slot_taken(taken@, i as int));
            return Ok(name);
        }
        i = i + 1;
    }
    let es = vec![err("run_artifact_write_failed", "Too many retry output files for attempt", None)];
    assert(errs_view(es@) =~= seq![
        plain_error("run_artifact_write_failed"@, "Too many retry output files for attempt"@),
    ]);
    Err(es)
}

/// The checks `run` makes of its arguments before it reads anything, in
/// order: the mode flags ([`validate_run_mode`]), then whether this command
/// line can execute at all ([`execute_requires_runtime_guard`]), then the
/// replicate count ([`validate_replicates`]). The first that refuses decides.
pub fn check_run_args(args: &RunArgs, fake_executor_available: bool) -> (r: Result<(), Vec<CliError>>)
    ensures
        r is Ok <==> run_mode_errors(*args, fake_executor_available).len() == 0 && !(args.execute
            && !args.fake_executor) && 1 <= args.replicates <= 100,
        r matches Err(es) ==> errs_view(es@) == if run_mode_errors(*args, fake_executor_available).len() > 0 {
            run_mode_errors(*args, fake_executor_available)
        } else if args.execute && !args.fake_executor {
            seq![
                plain_error(
                    "execution_requires_running_app"@,
                    "Real role-experiment execution requires a running AgentsCommander app or daemon; Phase 3A CLI-only execution has no side effects"@,
                ),
            ]
        } else {
            seq![plain_error("replicates_invalid"@, "--replicates must be between 1 and 100"@)]
        },
{
    validate_run_mode(args, fake_executor_available)?;
    execute_requires_runtime_guard(args)?;
    validate_replicates(args.replicates)
}

/// The variants as a run records them: each with its agent, its role's
/// digest, and where its role document is in the Project AC Root.
pub fn run_variant_artifacts(workspace_dir: &str, source_agent: &str, variants: &Vec<VariantMetadata>) -> (out: Vec<
    RunVariantArtifact,
>)
    ensures
        out@.len() == variants@.len(),
        forall|i: int|
            0 <= i < variants@.len() ==> {
                let o = #[trigger] out@[i];
                let v = variants@[i];
                &&& o.name@ == v.name@
                &&& o.agent_name@ == v.agent_name@
                &&& o.role_sha256@ == v.role_sha256@
                &&& o.role_path@ == join_path(
                    join_path(workspace_dir@, "_agent_"@ + source_agent@ + "-"@ + v.name@),
                    "Role.md"@,
                )
            },
{
    let mut out: Vec<RunVariantArtifact> = Vec::new();
    let mut i: usize = 0;
    while i < variants.len()
        invariant
            i <= variants@.len(),
            out@.len() == i,
            forall|k: int|
                0 <= k < i ==> {
                    let o = #[trigger] out@[k];
                    let v = variants@[k];
                    &&& o.name@ == v.name@
                    &&& o.agent_name@ == v.agent_name@
                    &&& o.role_sha256@ == v.role_sha256@
                    &&& o.role_path@ == join_path(
                        join_path(workspace_dir@, "_agent_"@ + source_agent@ + "-"@ + v.name@),
                        "Role.md"@,
                    )
                },
        decreases variants@.len() - i,
    {
        let v = &variants[i];
        let dir = variant_matrix_path(workspace_dir, source_agent, v.name.as_str());
        let role_path = join_path_exec(dir.as_str(), "Role.md");
        out.push(
            RunVariantArtifact {
                name: v.name.clone(),
                agent_name: v.agent_name.clone(),
                role_sha256: v.role_sha256.clone(),
                role_path,
            },
        );
        i = i + 1;
    }
    out
}

/// What a dry run records in `run.json`: status `dry_run`, created and
/// updated at `timestamp`, the suite it read, the seed (given or drawn), the
/// variants, how many attempts it planned, the default artifact paths, and no
/// execution, workgroup or warnings.
pub fn dry_run_artifact(
    run_id: &str,
    project: &str,
    experiment: &str,
    timestamp: &str,
    suite: RunSuiteArtifact,
    seed: u64,
    seed_provided: bool,
    replicates: u32,
    variants: Vec<RunVariantArtifact>,
    attempt_count: usize,
) -> (r: RunArtifact)
    ensures
        r.schema_version == 1,
        r.run_id@ == run_id@ && r.project@ == project@ && r.experiment@ == experiment@,
        r.status@ == "dry_run"@ && r.dry_run,
        r.created_at@ == timestamp@ && r.updated_at@ == timestamp@,
        r.suite == suite,
        r.seed == seed && r.seed_provided == seed_provided && r.replicates == replicates,
        r.variants == variants,
        r.attempt_count == attempt_count,
        r.artifacts.attempts@ == "attempts.jsonl"@ && r.artifacts.report_json@ == "report.json"@
            && r.artifacts.report_markdown@ == "report.md"@ && r.artifacts.prompts@ == "prompts"@
            && r.artifacts.outputs@ == "outputs"@ && r.artifacts.transcripts@ == "transcripts"@
            && r.artifacts.attempt_state@ == "attempt-state"@,
        r.execution is None && r.workgroup is None && r.warnings@.len() == 0,
{
    RunArtifact {
        schema_version: 1,
        run_id: owned(run_id),
        project: owned(project),
        experiment: owned(experiment),
        status: owned("dry_run"),
        dry_run: true,
        created_at: owned(timestamp),
        updated_at: owned(timestamp),
        suite,
        seed,
        seed_provided,
        replicates,
        variants,
        attempt_count,
        artifacts: default_run_artifact_paths(),
        execution: None,
        workgroup: None,
        warnings: Vec::new(),
    }
}

// ---------------------------------------------------------------------------
// Resuming a run.

/// The same strings in the same order.
fn strings_eq(a: &Vec<String>, b: &Vec<String>) -> (r: bool)
    ensures
        r == (views(a@) == views(b@)),
{
    if a.len() != b.len() {
        assert(views(a@).len() != views(b@).len());
        return false;
    }
    let mut i: usize = 0;
    while i < a.len()
        invariant
            a@.len() == b@.len(),
            i <= a@.len(),
            forall|j: int| 0 <= j < i ==> a@[j]@ == b@[j]@,
        decreases a@.len() - i,
    {
        if !str_eq(a[i].as_str(), b[i].as_str()) {
            assert(views(a@)[i as int] != views(b@)[i as int]);
            return false;
        }
        i = i + 1;
    }
    assert(views(a@) =~= views(b@));
    true
}

/// An error about one variant.
pub open spec fn variant_error(code: Seq<char>, message: Seq<char>, variant: Seq<char>) -> CliErrorView {
    CliErrorView { code, message, variant: Some(variant), line: None, field: None, path: None }
}

/// A variant as the run recorded it agrees with its metadata: name, agent,
/// role digest and role path.
pub open spec fn recorded_variant_matches(r: RunVariantArtifact, v: VariantMetadata) -> bool {
    &&& r.name@ == v.name@
    &&& r.agent_name@ == v.agent_name@
    &&& r.role_sha256@ == v.role_sha256@
    &&& r.role_path@ == v.role_path@
}

/// The artifact paths are the ones every run uses.
pub open spec fn default_paths(p: RunArtifactPaths) -> bool {
    &&& p.attempts@ == "attempts.jsonl"@
    &&& p.report_json@ == "report.json"@
    &&& p.report_markdown@ == "report.md"@
    &&& p.prompts@ == "prompts"@
    &&& p.outputs@ == "outputs"@
    &&& p.transcripts@ == "transcripts"@
    &&& p.attempt_state@ == "attempt-state"@
}

/// The number of attempts a run of `prompts`, `variants` and `replicates`
/// plans.
pub open spec fn planned_count(np: nat, nv: nat, nr: nat) -> nat {
    np * nv * nr
}

/// A stored run agrees with the resume arguments: the suite read (path,
/// digest, prompt count), the replicates, the variants in order, the number
/// of planned attempts, the default artifact paths.
pub open spec fn run_contract_ok(
    run: RunArtifact,
    suite: ParsedPromptSuite,
    variants: Seq<VariantMetadata>,
    replicates: u32,
) -> bool {
    &&& run.suite.path@ == suite.path@
    &&& run.suite.sha256@ == suite.sha256@
    &&& run.suite.prompt_count == suite.prompts@.len()
    &&& run.replicates == replicates
    &&& run.variants@.len() == variants.len()
    &&& forall|i: int| 0 <= i < variants.len() ==> recorded_variant_matches(#[trigger] run.variants@[i], variants[i])
    &&& run.attempt_count == planned_count(suite.prompts@.len(), variants.len(), replicates as nat)
    &&& default_paths(run.artifacts)
}

/// The prompt, variant and replicate of the `k`-th planned attempt (see
/// [`attempt_index`]).
pub open spec fn plan_prompt(k: int, nv: int, nr: int) -> int {
    (k / nr) / nv
}

pub open spec fn plan_variant(k: int, nv: int, nr: int) -> int {
    (k / nr) % nv
}

pub open spec fn plan_replicate(k: int, nr: int) -> int {
    k % nr + 1
}

proof fn lemma_plan_position(k: int, np: int, nv: int, nr: int)
    requires
        0 <= k < np * nv * nr,
        nv > 0,
        nr > 0,
    ensures
        0 <= plan_prompt(k, nv, nr) < np,
        0 <= plan_variant(k, nv, nr) < nv,
        1 <= plan_replicate(k, nr) <= nr,
        attempt_index(plan_prompt(k, nv, nr), plan_variant(k, nv, nr), plan_replicate(k, nr), nv, nr) == k,
{
    let q = k / nr;
    let r = k % nr;
    vstd::arithmetic::div_mod::lemma_fundamental_div_mod(k, nr);
    vstd::arithmetic::div_mod::lemma_mod_pos_bound(k, nr);
    vstd::arithmetic::div_mod::lemma_div_pos_is_pos(k, nr);
    assert(q < np * nv) by (nonlinear_arith)
        requires
            k == nr * q + r,
            0 <= r,
            k < np * nv * nr,
            nr > 0,
    ;
    let pi = q / nv;
    let vi = q % nv;
    vstd::arithmetic::div_mod::lemma_fundamental_div_mod(q, nv);
    vstd::arithmetic::div_mod::lemma_mod_pos_bound(q, nv);
    vstd::arithmetic::div_mod::lemma_div_pos_is_pos(q, nv);
    assert(pi < np) by (nonlinear_arith)
        requires
            q == nv * pi + vi,
            0 <= vi,
            q < np * nv,
            nv > 0,
    ;
    assert((pi * nv + vi) * nr + (r + 1 - 1) == k) by (nonlinear_arith)
        requires
            q == nv * pi + vi,
            k == nr * q + r,
    ;
}

/// A stored attempt has the identity of the attempt planned for prompt `p`,
/// variant `v` and replicate `rep` of run `run_id`.
pub open spec fn same_identity(a: AttemptArtifact, run_id: Seq<char>, p: PromptCase, v: VariantMetadata, rep: int) -> bool {
    &&& a.schema_version == 1
    &&& a.attempt_id@ == attempt_id_spec(p.id@, v.name@, rep as nat)
    &&& a.run_id@ == run_id
    &&& a.prompt_id@ == p.id@
    &&& a.prompt_title@ == p.title@
    &&& a.prompt_line == p.line
    &&& a.variant@ == v.name@
    &&& a.agent_name@ == v.agent_name@
    &&& a.replicate == rep
    &&& views(a.tags@) == views(p.tags@)
    &&& views(a.expected_behaviors@) == views(p.expected_behaviors@)
}

/// The `k`-th stored attempt is the `k`-th planned one, as far as identity
/// goes.
pub open spec fn attempt_at_plan(
    a: AttemptArtifact,
    run_id: Seq<char>,
    prompts: Seq<PromptCase>,
    variants: Seq<VariantMetadata>,
    nr: int,
    k: int,
) -> bool {
    let nv = variants.len() as int;
    same_identity(
        a,
        run_id,
        prompts[plan_prompt(k, nv, nr)],
        variants[plan_variant(k, nv, nr)],
        plan_replicate(k, nr),
    )
}

/// The refusals of the first `n` stored attempts, each compared with the
/// attempt planned at its place.
pub open spec fn attempt_identity_errors(
    attempts: Seq<AttemptArtifact>,
    run_id: Seq<char>,
    prompts: Seq<PromptCase>,
    variants: Seq<VariantMetadata>,
    nr: int,
    n: nat,
) -> Seq<CliErrorView>
    decreases n,
{
    if n == 0 {
        Seq::empty()
    } else {
        let prev = attempt_identity_errors(attempts, run_id, prompts, variants, nr, (n - 1) as nat);
        let a = attempts[n - 1];
        if attempt_at_plan(a, run_id, prompts, variants, nr, n - 1) {
            prev
        } else {
            prev.push(
                variant_error(
                    "run_artifact_mismatch"@,
                    "Attempt artifact identity does not match resume arguments"@,
                    a.variant@,
                ),
            )
        }
    }
}

/// The refusals of the first `n` variants of a report, each compared with
/// the variant at its place.
pub open spec fn report_variant_errors(rvs: Seq<ReportVariantArtifact>, vs: Seq<VariantMetadata>, n: nat) -> Seq<
    CliErrorView,
>
    decreases n,
{
    if n == 0 {
        Seq::empty()
    } else {
        let prev = report_variant_errors(rvs, vs, (n - 1) as nat);
        let r = rvs[n - 1];
        if r.name@ == vs[n - 1].name@ && r.agent_name@ == vs[n - 1].agent_name@ {
            prev
        } else {
            prev.push(
                variant_error(
                    "run_artifact_mismatch"@,
                    "Report variant identity does not match resume arguments"@,
                    r.name@,
                ),
            )
        }
    }
}

/// The refusals of the first `n` prompts of a report, each compared with the
/// prompt case at its place.
pub open spec fn report_prompt_errors(rps: Seq<ReportPromptArtifact>, ps: Seq<PromptCase>, n: nat) -> Seq<
    CliErrorView,
>
    decreases n,
{
    if n == 0 {
        Seq::empty()
    } else {
        let prev = report_prompt_errors(rps, ps, (n - 1) as nat);
        if rps[n - 1].id@ == ps[n - 1].id@ && rps[n - 1].title@ == ps[n - 1].title@ {
            prev
        } else {
            prev.push(
                plain_error(
                    "run_artifact_mismatch"@,
                    "Report prompt identity does not match resume arguments"@,
                ),
            )
        }
    }
}

pub open spec fn min_nat(a: nat, b: nat) -> nat {
    if a <= b {
        a
    } else {
        b
    }
}

/// The refusals of a stored run's own record against the resume arguments,
/// in order: schema or project, identity (run id, experiment, not a dry run,
/// executed), the contract (see [`run_contract_ok`]), a given seed, and the
/// number of stored attempts.
pub open spec fn resume_run_errors(
    args: RunArgs,
    run_id: Seq<char>,
    experiment: Seq<char>,
    suite: ParsedPromptSuite,
    variants: Seq<VariantMetadata>,
    run: RunArtifact,
    attempt_count: nat,
) -> Seq<CliErrorView> {
    let m = "run_artifact_mismatch"@;
    let s0 = push_err_if(
        Seq::empty(),
        run.schema_version != 1 || run.project@ != args.project@,
        m,
        "Run artifact schema or project does not match resume arguments"@,
    );
    let s1 = push_err_if(
        s0,
        run.run_id@ != run_id || run.experiment@ != experiment || run.dry_run || run.execution is None,
        m,
        "Run artifact identity does not match resume arguments"@,
    );
    let s2 = push_err_if(
        s1,
        !run_contract_ok(run, suite, variants, args.replicates),
        m,
        "Run artifact contract does not match resume arguments"@,
    );
    let s3 = push_err_if(
        s2,
        match args.seed {
            Some(seed) => run.seed != seed || !run.seed_provided,
            None => false,
        },
        m,
        "Run artifact seed does not match resume arguments"@,
    );
    push_err_if(
        s3,
        attempt_count != planned_count(suite.prompts@.len(), variants.len(), args.replicates as nat),
        m,
        "Attempt artifact count does not match resume arguments"@,
    )
}

/// The refusal of a stored run's workgroup: missing, or not the run's
/// retained, never cleaned workgroup.
pub open spec fn resume_workgroup_errors(run_id: Seq<char>, experiment: Seq<char>, run: RunArtifact) -> Seq<
    CliErrorView,
> {
    match run.workgroup {
        None => seq![plain_error("run_artifact_mismatch"@, "Run artifact is missing workgroup metadata"@)],
        Some(w) => push_err_if(
            Seq::empty(),
            w.run_id@ != run_id || w.experiment@ != experiment || !w.retained || w.cleanup_supported,
            "run_artifact_mismatch"@,
            "Run workgroup metadata does not match resume arguments"@,
        ),
    }
}

/// Every refusal of a stored run that is to be resumed, in order: those of
/// its report (see [`report_artifact_errors`]), of its own record (see
/// [`resume_run_errors`]), of each stored attempt against the plan, of the
/// report's shape, variants and prompts, and of its workgroup.
pub open spec fn resume_errors(
    args: RunArgs,
    experiment: Seq<char>,
    run_dir: Seq<char>,
    run_id: Seq<char>,
    suite: ParsedPromptSuite,
    variants: Seq<VariantMetadata>,
    run: RunArtifact,
    attempts: Seq<AttemptArtifact>,
    report: ReportArtifact,
) -> Seq<CliErrorView> {
    let planned = planned_count(suite.prompts@.len(), variants.len(), args.replicates as nat);
    report_artifact_errors(experiment, run_dir, run_id, run, report) + resume_run_errors(
        args,
        run_id,
        experiment,
        suite,
        variants,
        run,
        attempts.len(),
    ) + attempt_identity_errors(
        attempts,
        run_id,
        suite.prompts@,
        variants,
        args.replicates as int,
        min_nat(attempts.len(), planned),
    ) + push_err_if(
        Seq::empty(),
        report.variants@.len() != variants.len() || report.prompts@.len() != suite.prompts@.len(),
        "run_artifact_mismatch"@,
        "Report artifact shape does not match resume arguments"@,
    ) + report_variant_errors(report.variants@, variants, min_nat(report.variants@.len(), variants.len()))
        + report_prompt_errors(
        report.prompts@,
        suite.prompts@,
        min_nat(report.prompts@.len(), suite.prompts@.len()),
    ) + resume_workgroup_errors(run_id, experiment, run)
}

fn paths_are_default(p: &RunArtifactPaths) -> (r: bool)
    ensures
        r == default_paths(*p),
{
    str_eq(p.attempts.as_str(), "attempts.jsonl") && str_eq(p.report_json.as_str(), "report.json")
        && str_eq(p.report_markdown.as_str(), "report.md") && str_eq(p.prompts.as_str(), "prompts")
        && str_eq(p.outputs.as_str(), "outputs") && str_eq(p.transcripts.as_str(), "transcripts")
        && str_eq(p.attempt_state.as_str(), "attempt-state")
}

fn run_contract_agrees(
    run: &RunArtifact,
    suite: &ParsedPromptSuite,
    variants: &Vec<VariantMetadata>,
    replicates: u32,
    planned: usize,
) -> (r: bool)
    requires
        planned == planned_count(suite.prompts@.len(), variants@.len(), replicates as nat),
    ensures
        r == run_contract_ok(*run, *suite, variants@, replicates),
{
    if !str_eq(run.suite.path.as_str(), suite.path.as_str()) || !str_eq(
        run.suite.sha256.as_str(),
        suite.sha256.as_str(),
    ) || run.suite.prompt_count != suite.prompts.len() || run.replicates != replicates
        || run.variants.len() != variants.len() || run.attempt_count != planned || !paths_are_default(
        &run.artifacts,
    ) {
        return false;
    }
    let mut i: usize = 0;
    while i < variants.len()
        invariant
            i <= variants@.len(),
            run.variants@.len() == variants@.len(),
            forall|j: int| 0 <= j < i ==> recorded_variant_matches(#[trigger] run.variants@[j], variants@[j]),
        decreases variants@.len() - i,
    {
        let rv = &run.variants[i];
        let v = &variants[i];
        if !(str_eq(rv.name.as_str(), v.name.as_str()) && str_eq(rv.agent_name.as_str(), v.agent_name.as_str())
            && str_eq(rv.role_sha256.as_str(), v.role_sha256.as_str()) && str_eq(
            rv.role_path.as_str(),
            v.role_path.as_str(),
        )) {
            assert(!recorded_variant_matches(run.variants@[i as int], variants@[i as int]));
            return false;
        }
        i = i + 1;
    }
    true
}

fn identity_agrees(a: &AttemptArtifact, e: &AttemptArtifact) -> (r: bool)
    ensures
        r == (a.schema_version == 1 && a.attempt_id@ == e.attempt_id@ && a.run_id@ == e.run_id@
            && a.prompt_id@ == e.prompt_id@ && a.prompt_title@ == e.prompt_title@ && a.prompt_line
            == e.prompt_line && a.variant@ == e.variant@ && a.agent_name@ == e.agent_name@ && a.replicate
            == e.replicate && views(a.tags@) == views(e.tags@) && views(a.expected_behaviors@) == views(
            e.expected_behaviors@,
        )),
{
    a.schema_version == 1 && str_eq(a.attempt_id.as_str(), e.attempt_id.as_str()) && str_eq(
        a.run_id.as_str(),
        e.run_id.as_str(),
    ) && str_eq(a.prompt_id.as_str(), e.prompt_id.as_str()) && str_eq(
        a.prompt_title.as_str(),
        e.prompt_title.as_str(),
    ) && a.prompt_line == e.prompt_line && str_eq(a.variant.as_str(), e.variant.as_str()) && str_eq(
        a.agent_name.as_str(),
        e.agent_name.as_str(),
    ) && a.replicate == e.replicate && strings_eq(&a.tags, &e.tags) && strings_eq(
        &a.expected_behaviors,
        &e.expected_behaviors,
    )
}

/// Checks a stored run before it is resumed, against the resume arguments
/// `args`, the experiment, the run's directory and id, the prompt suite read
/// again and the variants' metadata: its report, its record, each stored
/// attempt against the plan (see [`build_attempts`]), the report's variants
/// and prompts, and its workgroup. Every refusal is reported, in order (see
/// [`resume_errors`]); the checks of the workgroup's place on disk and of
/// the attempt-state files come after these.
pub fn check_resume_artifacts(
    args: &RunArgs,
    experiment: &str,
    run_dir: &str,
    run_id: &str,
    suite: &ParsedPromptSuite,
    variants: &Vec<VariantMetadata>,
    run: &RunArtifact,
    attempts: &Vec<AttemptArtifact>,
    report: &ReportArtifact,
) -> (r: Result<(), Vec<CliError>>)
    ensures
        match r {
            Ok(()) => resume_errors(
                *args,
                experiment@,
                run_dir@,
                run_id@,
                *suite,
                variants@,
                *run,
                attempts@,
                *report,
            ).len() == 0,
            Err(es) => errs_view(es@) == resume_errors(
                *args,
                experiment@,
                run_dir@,
                run_id@,
                *suite,
                variants@,
                *run,
                attempts@,
                *report,
            ) && es@.len() > 0,
        },
{
    let mut errors: Vec<CliError> = match validate_report_artifacts(experiment, run_dir, run_id, run, report) {
        Ok(()) => Vec::new(),
        Err(es) => es,
    };
    let ghost e0 = report_artifact_errors(experiment@, run_dir@, run_id@, *run, *report);
    assert(errs_view(errors@) =~= e0);
    let expected = build_attempts(run_id, &suite.prompts, variants, args.replicates);
    let planned = expected.len();
    let ghost np = suite.prompts@.len();
    let ghost nv = variants@.len();
    let ghost nr = args.replicates as nat;
    assert(planned == planned_count(np, nv, nr));

    // The run's own record.
    let ghost before = errs_view(errors@);
    let mut own: Vec<CliError> = Vec::new();
    assert(errs_view(own@) =~= Seq::<CliErrorView>::empty());
    push_plain(
        &mut own,
        run.schema_version != 1 || !str_eq(run.project.as_str(), args.project.as_str()),
        "run_artifact_mismatch",
        "Run artifact schema or project does not match resume arguments",
    );
    push_plain(
        &mut own,
        !str_eq(run.run_id.as_str(), run_id) || !str_eq(run.experiment.as_str(), experiment) || run.dry_run
            || run.execution.is_none(),
        "run_artifact_mismatch",
        "Run artifact identity does not match resume arguments",
    );
    let contract = run_contract_agrees(run, suite, variants, args.replicates, planned);
    push_plain(&mut own, !contract, "run_artifact_mismatch", "Run artifact contract does not match resume arguments");
    let seed_bad = match args.seed {
        Some(seed) => run.seed != seed || !run.seed_provided,
        None => false,
    };
    push_plain(&mut own, seed_bad, "run_artifact_mismatch", "Run artifact seed does not match resume arguments");
    push_plain(
        &mut own,
        attempts.len() != planned,
        "run_artifact_mismatch",
        "Attempt artifact count does not match resume arguments",
    );
    assert(errs_view(own@) == resume_run_errors(*args, run_id@, experiment@, *suite, variants@, *run, attempts@.len()));
    let ghost own_view = errs_view(own@);
    errors.append(&mut own);
    assert(errs_view(errors@) =~= before + own_view);

    // Each stored attempt against the plan.
    let n = if attempts.len() < planned {
        attempts.len()
    } else {
        planned
    };
    let ghost base = errs_view(errors@);
    let mut k: usize = 0;
    while k < n
        invariant
            k <= n,
            n == min_nat(attempts@.len(), planned as nat),
            n <= attempts@.len(),
            n <= expected@.len(),
            planned == expected@.len(),
            expected@.len() == planned_count(np, nv, nr),
            np == suite.prompts@.len(),
            nv == variants@.len(),
            nr == args.replicates as nat,
            forall|pi: int, vi: int, rep: int|
                0 <= pi < suite.prompts@.len() && 0 <= vi < variants@.len() && 1 <= rep <= args.replicates
                    ==> #[trigger] planned_attempt(
                    expected@[attempt_index(pi, vi, rep, variants@.len() as int, args.replicates as int)],
                    run_id@,
                    suite.prompts@[pi],
                    variants@[vi],
                    rep as u32,
                ),
            errs_view(errors@) == base + attempt_identity_errors(
                attempts@,
                run_id@,
                suite.prompts@,
                variants@,
                args.replicates as int,
                k as nat,
            ),
        decreases n - k,
    {
        let ghost ki = k as int;
        proof {
            assert(nv > 0 && nr > 0) by {
                if nv == 0 || nr == 0 {
                    assert(np * nv * nr == 0) by (nonlinear_arith)
                        requires
                            nv == 0 || nr == 0,
                    ;
                }
            }
            lemma_plan_position(ki, np as int, nv as int, nr as int);
            let pi = plan_prompt(ki, nv as int, nr as int);
            let vi = plan_variant(ki, nv as int, nr as int);
            let rep = plan_replicate(ki, nr as int);
            assert(planned_attempt(
                expected@[attempt_index(pi, vi, rep, nv as int, nr as int)],
                run_id@,
                suite.prompts@[pi],
                variants@[vi],
                rep as u32,
            ));
        }
        let a = &attempts[k];
        let ok = identity_agrees(a, &expected[k]);
        let ghost prev = errs_view(errors@);
        if !ok {
            let e = err("run_artifact_mismatch", "Attempt artifact identity does not match resume arguments", Some(a.variant.as_str()));
            assert(e@ == variant_error(
                "run_artifact_mismatch"@,
                "Attempt artifact identity does not match resume arguments"@,
                a.variant@,
            ));
            errors.push(e);
            assert(errs_view(errors@) =~= prev.push(
                variant_error(
                    "run_artifact_mismatch"@,
                    "Attempt artifact identity does not match resume arguments"@,
                    a.variant@,
                ),
            ));
        }
        assert(errs_view(errors@) =~= base + attempt_identity_errors(
            attempts@,
            run_id@,
            suite.prompts@,
            variants@,
            args.replicates as int,
            (k + 1) as nat,
        ));
        k = k + 1;
    }

    // The report's shape, variants and prompts.
    let ghost before_shape = errs_view(errors@);
    push_plain(
        &mut errors,
        report.variants.len() != variants.len() || report.prompts.len() != suite.prompts.len(),
        "run_artifact_mismatch",
        "Report artifact shape does not match resume arguments",
    );
    assert(errs_view(errors@) =~= before_shape + push_err_if(
        Seq::empty(),
        report.variants@.len() != variants@.len() || report.prompts@.len() != suite.prompts@.len(),
        "run_artifact_mismatch"@,
        "Report artifact shape does not match resume arguments"@,
    ));
    let nvr = if report.variants.len() < variants.len() {
        report.variants.len()
    } else {
        variants.len()
    };
    let ghost base_v = errs_view(errors@);
    let mut i: usize = 0;
    while i < nvr
        invariant
            i <= nvr,
            nvr == min_nat(report.variants@.len(), variants@.len()),
            errs_view(errors@) == base_v + report_variant_errors(report.variants@, variants@, i as nat),
        decreases nvr - i,
    {
        let rv = &report.variants[i];
        let v = &variants[i];
        let ghost prev = errs_view(errors@);
        if !(str_eq(rv.name.as_str(), v.name.as_str()) && str_eq(rv.agent_name.as_str(), v.agent_name.as_str())) {
            let e = err("run_artifact_mismatch", "Report variant identity does not match resume arguments", Some(rv.name.as_str()));
            assert(e@ == variant_error(
                "run_artifact_mismatch"@,
                "Report variant identity does not match resume arguments"@,
                rv.name@,
            ));
            errors.push(e);
            assert(errs_view(errors@) =~= prev.push(
                variant_error(
                    "run_artifact_mismatch"@,
                    "Report variant identity does not match resume arguments"@,
                    rv.name@,
                ),
            ));
        }
        assert(errs_view(errors@) =~= base_v + report_variant_errors(report.variants@, variants@, (i + 1) as nat));
        i = i + 1;
    }
    let npr = if report.prompts.len() < suite.prompts.len() {
        report.prompts.len()
    } else {
        suite.prompts.len()
    };
    let ghost base_p = errs_view(errors@);
    let mut j: usize = 0;
    while j < npr
        invariant
            j <= npr,
            npr == min_nat(report.prompts@.len(), suite.prompts@.len()),
            errs_view(errors@) == base_p + report_prompt_errors(report.prompts@, suite.prompts@, j as nat),
        decreases npr - j,
    {
        let rp = &report.prompts[j];
        let p = &suite.prompts[j];
        let ghost prev = errs_view(errors@);
        let same = str_eq(rp.id.as_str(), p.id.as_str()) && str_eq(rp.title.as_str(), p.title.as_str());
        push_plain(&mut errors, !same, "run_artifact_mismatch", "Report prompt identity does not match resume arguments");
        assert(same == (report.prompts@[j as int].id@ == suite.prompts@[j as int].id@
            && report.prompts@[j as int].title@ == suite.prompts@[j as int].title@));
        assert(report_prompt_errors(report.prompts@, suite.prompts@, (j + 1) as nat) == push_err_if(
            report_prompt_errors(report.prompts@, suite.prompts@, j as nat),
            !same,
            "run_artifact_mismatch"@,
            "Report prompt identity does not match resume arguments"@,
        ));
        assert(errs_view(errors@) =~= base_p + report_prompt_errors(report.prompts@, suite.prompts@, (j + 1) as nat));
        j = j + 1;
    }

    // The workgroup.
    let ghost before_wg = errs_view(errors@);
    match &run.workgroup {
        None => {
            push_plain(&mut errors, true, "run_artifact_mismatch", "Run artifact is missing workgroup metadata");
        },
        Some(w) => {
            push_plain(
                &mut errors,
                !str_eq(w.run_id.as_str(), run_id) || !str_eq(w.experiment.as_str(), experiment) || !w.retained
                    || w.cleanup_supported,
                "run_artifact_mismatch",
                "Run workgroup metadata does not match resume arguments",
            );
        },
    }
    assert(errs_view(errors@) =~= before_wg + resume_workgroup_errors(run_id@, experiment@, *run));
    assert(errs_view(errors@) =~= resume_errors(
        *args,
        experiment@,
        run_dir@,
        run_id@,
        *suite,
        variants@,
        *run,
        attempts@,
        *report,
    ));
    if errors.len() == 0 {
        Ok(())
    } else {
        Err(errors)
    }
}

// ---------------------------------------------------------------------------
// Creating an experiment.

/// What was found at a variant's matrix directory before it is created.
#[derive(PartialEq, Eq, Structural, Clone, Copy, Debug)]
pub enum MatrixState {
    /// Nothing is there.
    Absent,
    /// A directory or file is already there.
    Present,
    /// A link or reparse point is there.
    Link,
}

/// One requested variant, with what the checks that rest on the project's
/// naming rules found of it: why its name is not already a lowercase slug
/// (`slug_error`), why the name of its agent is not a valid name
/// (`agent_name_error`), and what is at its matrix directory.
pub struct VariantCheck {
    pub name: String,
    pub slug_error: Option<String>,
    pub agent_name_error: Option<String>,
    pub matrix: MatrixState,
}

/// The refusals of the first `n` requested variants, and the names seen so
/// far (those past the empty and slug checks), in the order `init` checks
/// them: an empty name; a name that is not a slug; a repeated name; an
/// invalid agent name; a matrix directory that is a link or already exists.
pub open spec fn variant_check_errors(
    workspace_dir: Seq<char>,
    source_agent: Seq<char>,
    cs: Seq<VariantCheck>,
    n: nat,
) -> (Seq<CliErrorView>, Seq<Seq<char>>)
    decreases n,
{
    if n == 0 {
        (Seq::empty(), Seq::empty())
    } else {
        let prev = variant_check_errors(workspace_dir, source_agent, cs, (n - 1) as nat);
        let errs = prev.0;
        let seen = prev.1;
        let c = cs[n - 1];
        let v = c.name@;
        let target = join_path(workspace_dir, "_agent_"@ + source_agent + "-"@ + v);
        if v.len() == 0 {
            (errs.push(plain_error("variant_name_empty"@, "Variant name cannot be empty"@)), seen)
        } else if c.slug_error is Some {
            (errs.push(plain_error("variant_name_invalid"@, c.slug_error->0@)), seen)
        } else if seen.contains(v) {
            (
                errs.push(
                    variant_error("variant_name_duplicate"@, "Variant '"@ + v + "' is duplicated"@, v),
                ),
                seen,
            )
        } else if c.agent_name_error is Some {
            (errs.push(variant_error("variant_name_invalid"@, c.agent_name_error->0@, v)), seen.push(v))
        } else {
            match c.matrix {
                MatrixState::Absent => (errs, seen.push(v)),
                MatrixState::Link => (
                    errs.push(
                        variant_error(
                            "variant_role_link_or_reparse"@,
                            "Variant matrix path is a link or reparse point: "@ + target,
                            v,
                        ),
                    ),
                    seen.push(v),
                ),
                MatrixState::Present => (
                    errs.push(
                        variant_error("variant_matrix_exists"@, "Variant matrix already exists: "@ + target, v),
                    ),
                    seen.push(v),
                ),
            }
        }
    }
}

/// Every refusal of `init` before anything is written: those of the
/// requested variants in order (see [`variant_check_errors`]), then an
/// experiment of that name that already exists.
pub open spec fn init_preflight_spec(
    name: Seq<char>,
    workspace_dir: Seq<char>,
    source_agent: Seq<char>,
    cs: Seq<VariantCheck>,
    experiment_exists: bool,
) -> Seq<CliErrorView> {
    push_err_if(
        variant_check_errors(workspace_dir, source_agent, cs, cs.len()).0,
        experiment_exists,
        "experiment_exists"@,
        "Experiment '"@ + name + "' already exists"@,
    )
}

/// The checks `init` makes of the experiment `name` and its requested
/// variants (with what the project's naming rules and the disk said of each,
/// see [`VariantCheck`]) before it writes anything; every refusal, in order
/// (see [`init_preflight_spec`]).
pub fn init_preflight(
    name: &str,
    workspace_dir: &str,
    source_agent: &str,
    checks: &Vec<VariantCheck>,
    experiment_exists: bool,
) -> (r: Vec<CliError>)
    ensures
        errs_view(r@) == init_preflight_spec(name@, workspace_dir@, source_agent@, checks@, experiment_exists),
{
    let mut errors: Vec<CliError> = Vec::new();
    let mut seen: Vec<String> = Vec::new();
    let mut i: usize = 0;
    assert(errs_view(errors@) =~= Seq::<CliErrorView>::empty());
    assert(views(seen@) =~= Seq::<Seq<char>>::empty());
    while i < checks.len()
        invariant
            i <= checks@.len(),
            (errs_view(errors@), views(seen@)) == variant_check_errors(
                workspace_dir@,
                source_agent@,
                checks@,
                i as nat,
            ),
        decreases checks@.len() - i,
    {
        let c = &checks[i];
        let ghost prev_e = errs_view(errors@);
        let ghost prev_s = views(seen@);
        let v = c.name.as_str();
        let vc = chars_of(v);
        if vc.len() == 0 {
            let e = err("variant_name_empty", "Variant name cannot be empty", None);
            errors.push(e);
            assert(errs_view(errors@) =~= prev_e.push(e@));
        } else {
            match &c.slug_error {
                Some(m) => {
                    let e = err("variant_name_invalid", m.as_str(), None);
                    errors.push(e);
                    assert(errs_view(errors@) =~= prev_e.push(e@));
                },
                None => {
                    if crate::list_peers::contains_string(&seen, v) {
                        let mut msg = chars_of("Variant '");
                        append_str(&mut msg, v);
                        append_str(&mut msg, "' is duplicated");
                        let e = CliError {
                            code: owned("variant_name_duplicate"),
                            message: string_of(&msg),
                            variant: Some(owned(v)),
                            line: None,
                            field: None,
                            path: None,
                        };
                        errors.push(e);
                        assert(errs_view(errors@) =~= prev_e.push(e@));
                    } else {
                        seen.push(owned(v));
                        assert(views(seen@) =~= prev_s.push(v@));
                        match &c.agent_name_error {
                            Some(m) => {
                                let e = err("variant_name_invalid", m.as_str(), Some(v));
                                errors.push(e);
                                assert(errs_view(errors@) =~= prev_e.push(e@));
                            },
                            None => {
                                let target = variant_matrix_path(workspace_dir, source_agent, v);
                                match c.matrix {
                                    MatrixState::Absent => {},
                                    MatrixState::Link => {
                                        let mut msg = chars_of("Variant matrix path is a link or reparse point: ");
                                        append_str(&mut msg, target.as_str());
                                        let e = CliError {
                                            code: owned("variant_role_link_or_reparse"),
                                            message: string_of(&msg),
                                            variant: Some(owned(v)),
                                            line: None,
                                            field: None,
                                            path: None,
                                        };
                                        errors.push(e);
                                        assert(errs_view(errors@) =~= prev_e.push(e@));
                                    },
                                    MatrixState::Present => {
                                        let mut msg = chars_of("Variant matrix already exists: ");
                                        append_str(&mut msg, target.as_str());
                                        let e = CliError {
                                            code: owned("variant_matrix_exists"),
                                            message: string_of(&msg),
                                            variant: Some(owned(v)),
                                            line: None,
                                            field: None,
                                            path: None,
                                        };
                                        errors.push(e);
                                        assert(errs_view(errors@) =~= prev_e.push(e@));
                                    },
                                }
                            },
                        }
                    }
                },
            }
        }
        i = i + 1;
    }
    let mut msg = chars_of("Experiment '");
    append_str(&mut msg, name);
    append_str(&mut msg, "' already exists");
    let ghost before = errs_view(errors@);
    if experiment_exists {
        let e = CliError {
            code: owned("experiment_exists"),
            message: string_of(&msg),
            variant: None,
            line: None,
            field: None,
            path: None,
        };
        errors.push(e);
        assert(errs_view(errors@) =~= before.push(e@));
    }
    errors
}

/// The variant metadata `init` writes for one variant (see
/// [`new_variant_metadata`]).
pub open spec fn new_variant_spec(
    m: VariantMetadata,
    variant: Seq<char>,
    source_agent: Seq<char>,
    role_sha256: Seq<char>,
    now: Seq<char>,
) -> bool {
    &&& m.schema_version == 1
    &&& m.name@ == variant
    &&& m.source_agent@ == source_agent
    &&& m.agent_name@ == source_agent + "-"@ + variant
    &&& m.matrix_path@ == "../../../_agent_"@ + m.agent_name@
    &&& m.role_path@ == "../../../_agent_"@ + m.agent_name@ + "/Role.md"@
    &&& m.role_sha256@ == role_sha256
    &&& m.created_at@ == now && m.updated_at@ == now
}

/// The metadata `init` writes once its checks pass: the experiment's and
/// each variant's, in order, all recording the digest of the source role's
/// bytes (see [`new_experiment_metadata`], [`new_variant_metadata`]); refused
/// when those bytes are not UTF-8.
pub fn init_metadata(
    name: &str,
    project: &str,
    source_agent: &str,
    variants: Vec<String>,
    role_bytes: &Vec<u8>,
    now: &str,
) -> (r: Result<(ExperimentMetadata, Vec<VariantMetadata>), Vec<CliError>>)
    ensures
        r is Ok <==> valid_utf8(role_bytes@),
        r matches Err(es) ==> errs_view(es@) == seq![
            plain_error("source_role_not_utf8"@, "Source Role.md must be valid UTF-8"@),
        ],
        r matches Ok((e, vs)) ==> {
            let sha = sha256_hex_of(role_bytes@);
            &&& e.schema_version == 1
            &&& e.name@ == name@ && e.project@ == project@ && e.source_agent@ == source_agent@
            &&& e.source_matrix_path@ == "../../_agent_"@ + source_agent@
            &&& e.source_role_path@ == "../../_agent_"@ + source_agent@ + "/Role.md"@
            &&& e.source_role_sha256@ == sha
            &&& e.created_at@ == now@ && e.updated_at@ == now@
            &&& e.variants == variants
            &&& vs@.len() == variants@.len()
            &&& forall|i: int|
                0 <= i < vs@.len() ==> new_variant_spec(#[trigger] vs@[i], variants@[i]@, source_agent@, sha, now@)
        },
{
    check_source_role_utf8(role_bytes)?;
    let sha = sha256_hex(role_bytes.as_slice());
    let mut vs: Vec<VariantMetadata> = Vec::new();
    let mut i: usize = 0;
    while i < variants.len()
        invariant
            i <= variants@.len(),
            vs@.len() == i,
            sha@ == sha256_hex_of(role_bytes@),
            forall|k: int|
                0 <= k < i ==> new_variant_spec(#[trigger] vs@[k], variants@[k]@, source_agent@, sha@, now@),
        decreases variants@.len() - i,
    {
        let m = new_variant_metadata(variants[i].as_str(), source_agent, sha.as_str(), now);
        vs.push(m);
        i = i + 1;
    }
    let e = new_experiment_metadata(name, project, source_agent, sha.as_str(), now, variants);
    Ok((e, vs))
}

// ---------------------------------------------------------------------------
// Validating an experiment.

/// The refusals `validate` gives a variant's name: an empty name only that;
/// otherwise why it is not a slug (`slug_error`), then a repeat of a name
/// seen before (in `seen`).
pub open spec fn variant_name_errors(name: Seq<char>, slug_error: Option<Seq<char>>, seen: Seq<Seq<char>>) -> Seq<
    CliErrorView,
> {
    if name.len() == 0 {
        seq![plain_error("variant_name_empty"@, "Variant name cannot be empty"@)]
    } else {
        let s0: Seq<CliErrorView> = match slug_error {
            Some(m) => seq![plain_error("variant_name_invalid"@, m)],
            None => Seq::empty(),
        };
        if seen.contains(name) {
            s0.push(variant_error("variant_name_duplicate"@, "Duplicate variant '"@ + name + "'"@, name))
        } else {
            s0
        }
    }
}

/// Checks the name of the next variant of an experiment, given why it is
/// not a slug (`slug_error`, from the project's naming rules) and the names
/// seen so far, which it extends by this one unless it is empty or already
/// there. An empty name ends the checks of that variant (`true`).
pub fn check_variant_name(name: &str, slug_error: Option<&str>, seen: &mut Vec<String>) -> (r: (
    Vec<CliError>,
    bool,
))
    ensures
        errs_view(r.0@) == variant_name_errors(name@, str_opt(slug_error), views(old(seen)@)),
        r.1 == (name@.len() == 0),
        views(final(seen)@) == (if name@.len() == 0 || views(old(seen)@).contains(name@) {
            views(old(seen)@)
        } else {
            views(old(seen)@).push(name@)
        }),
{
    let nv = chars_of(name);
    if nv.len() == 0 {
        let es = vec![err("variant_name_empty", "Variant name cannot be empty", None)];
        assert(errs_view(es@) =~= seq![plain_error("variant_name_empty"@, "Variant name cannot be empty"@)]);
        return (es, true);
    }
    let mut es: Vec<CliError> = Vec::new();
    match slug_error {
        Some(m) => {
            es.push(err("variant_name_invalid", m, None));
        },
        None => {},
    }
    let ghost s0 = errs_view(es@);
    assert(s0 =~= match str_opt(slug_error) {
        Some(m) => seq![plain_error("variant_name_invalid"@, m)],
        None => Seq::<CliErrorView>::empty(),
    });
    let ghost old_seen = views(seen@);
    if crate::list_peers::contains_string(seen, name) {
        let mut msg = chars_of("Duplicate variant '");
        append_str(&mut msg, name);
        append_str(&mut msg, "'");
        let e = CliError {
            code: owned("variant_name_duplicate"),
            message: string_of(&msg),
            variant: Some(owned(name)),
            line: None,
            field: None,
            path: None,
        };
        es.push(e);
        assert(errs_view(es@) =~= s0.push(e@));
    } else {
        seen.push(owned(name));
        assert(views(seen@) =~= old_seen.push(name@));
    }
    (es, false)
}

/// The refusals `validate` gives when the source agent's matrix directory
/// (`source_matrix`) is not a directory, and when its `Role.md` (at
/// `source_role`) is not a file.
pub fn source_presence_errors(source_matrix: &str, matrix_is_dir: bool, source_role: &str, role_is_file: bool) -> (r: Vec<
    CliError,
>)
    ensures
        errs_view(r@) == push_err_if(
            push_err_if(
                Seq::empty(),
                !matrix_is_dir,
                "source_agent_missing"@,
                "Source agent matrix is missing: "@ + source_matrix@,
            ),
            !role_is_file,
            "source_role_missing"@,
            "Source Role.md is missing: "@ + source_role@,
        ),
{
    let mut es: Vec<CliError> = Vec::new();
    assert(errs_view(es@) =~= Seq::<CliErrorView>::empty());
    let mut m1 = chars_of("Source agent matrix is missing: ");
    append_str(&mut m1, source_matrix);
    let m1s = string_of(&m1);
    push_plain(&mut es, !matrix_is_dir, "source_agent_missing", m1s.as_str());
    let mut m2 = chars_of("Source Role.md is missing: ");
    append_str(&mut m2, source_role);
    let m2s = string_of(&m2);
    push_plain(&mut es, !role_is_file, "source_role_missing", m2s.as_str());
    es
}

/// The refusal `validate` gives for a variant whose agent has a live
/// session `session_name` at `working_directory`.
pub fn active_variant_session_error(variant: &str, session_name: &str, working_directory: &str) -> (e: CliError)
    ensures
        e@ == variant_error(
            "active_variant_session"@,
            "Active session '"@ + session_name@ + "' at "@ + working_directory@,
            variant@,
        ),
{
    let mut m = chars_of("Active session '");
    append_str(&mut m, session_name);
    append_str(&mut m, "' at ");
    append_str(&mut m, working_directory);
    CliError {
        code: owned("active_variant_session"),
        message: string_of(&m),
        variant: Some(owned(variant)),
        line: None,
        field: None,
        path: None,
    }
}

/// The refusal `validate` gives for a variant whose agent's role is
/// overridden by a Room replica's own `Role.md`.
pub fn replica_override_error(variant: &str, agent_name: &str) -> (e: CliError)
    ensures
        e@ == variant_error(
            "replica_role_override_detected"@,
            "Replica Role.md override exists for "@ + agent_name@,
            variant@,
        ),
{
    let mut m = chars_of("Replica Role.md override exists for ");
    append_str(&mut m, agent_name);
    CliError {
        code: owned("replica_role_override_detected"),
        message: string_of(&m),
        variant: Some(owned(variant)),
        line: None,
        field: None,
        path: None,
    }
}

// ---------------------------------------------------------------------------
// The record of an executed run.

/// The variants as an executed run records them: as their metadata gives
/// them (see [`recorded_variant_matches`]), in order.
pub fn recorded_variants(variants: &Vec<VariantMetadata>) -> (out: Vec<RunVariantArtifact>)
    ensures
        out@.len() == variants@.len(),
        forall|i: int| 0 <= i < variants@.len() ==> recorded_variant_matches(#[trigger] out@[i], variants@[i]),
{
    let mut out: Vec<RunVariantArtifact> = Vec::new();
    let mut i: usize = 0;
    while i < variants.len()
        invariant
            i <= variants@.len(),
            out@.len() == i,
            forall|k: int| 0 <= k < i ==> recorded_variant_matches(#[trigger] out@[k], variants@[k]),
        decreases variants@.len() - i,
    {
        let v = &variants[i];
        out.push(
            RunVariantArtifact {
                name: v.name.clone(),
                agent_name: v.agent_name.clone(),
                role_sha256: v.role_sha256.clone(),
                role_path: v.role_path.clone(),
            },
        );
        i = i + 1;
    }
    out
}

/// The execution record of a fake-executor run started at `timestamp` with
/// the arguments `args`: not completed, not cancelled.
pub open spec fn fresh_execution(x: RunExecutionArtifact, args: RunArgs, timestamp: Seq<char>) -> bool {
    &&& x.provider@ == args.provider@
    &&& x.attempt_timeout_secs == args.attempt_timeout_secs
    &&& x.max_parallel == args.max_parallel
    &&& x.started_at is Some && x.started_at->0@ == timestamp
    &&& x.completed_at is None
    &&& !x.cancellation_requested
    &&& x.executor@ == "fake"@
}

fn fresh_execution_record(args: &RunArgs, timestamp: &str) -> (x: RunExecutionArtifact)
    ensures
        fresh_execution(x, *args, timestamp@),
{
    RunExecutionArtifact {
        provider: args.provider.clone(),
        attempt_timeout_secs: args.attempt_timeout_secs,
        max_parallel: args.max_parallel,
        started_at: Some(owned(timestamp)),
        completed_at: None,
        cancellation_requested: false,
        executor: owned("fake"),
    }
}

/// The record a new executed run starts with: running, created and updated
/// at `timestamp`, the suite it read, the given seed or else `drawn_seed`
/// (marked as not given), the variants as their metadata gives them, the
/// planned attempt count, the default artifact paths, a fresh execution
/// record (see [`fresh_execution`]), its workgroup, and the four warnings
/// every fake-executor run carries.
pub fn new_run_record(
    args: &RunArgs,
    run_id: &str,
    experiment: &str,
    timestamp: &str,
    suite: &ParsedPromptSuite,
    drawn_seed: u64,
    variants: &Vec<VariantMetadata>,
    attempt_count: usize,
    workgroup: RunWorkgroupArtifact,
) -> (r: RunArtifact)
    ensures
        r.schema_version == 1,
        r.run_id@ == run_id@ && r.project@ == args.project@ && r.experiment@ == experiment@,
        r.status@ == "running"@ && !r.dry_run,
        r.created_at@ == timestamp@ && r.updated_at@ == timestamp@,
        r.suite.path@ == suite.path@ && r.suite.sha256@ == suite.sha256@ && r.suite.prompt_count
            == suite.prompts@.len(),
        r.seed == (match args.seed {
            Some(s) => s,
            None => drawn_seed,
        }),
        r.seed_provided == args.seed is Some,
        r.replicates == args.replicates,
        r.variants@.len() == variants@.len(),
        forall|i: int| 0 <= i < variants@.len() ==> recorded_variant_matches(#[trigger] r.variants@[i], variants@[i]),
        r.attempt_count == attempt_count,
        default_paths(r.artifacts),
        r.execution matches Some(x) && fresh_execution(x, *args, timestamp@),
        r.workgroup == Some(workgroup),
        views(r.warnings@) == seq![
            "run_workgroup_retained"@,
            "transcript_capture_best_effort"@,
            "no_scoring"@,
            "real_execution_deferred"@,
        ],
{
    let (seed, seed_provided) = match args.seed {
        Some(s) => (s, true),
        None => (drawn_seed, false),
    };
    let warnings = vec![
        owned("run_workgroup_retained"),
        owned("transcript_capture_best_effort"),
        owned("no_scoring"),
        owned("real_execution_deferred"),
    ];
    assert(views(warnings@) =~= seq![
        "run_workgroup_retained"@,
        "transcript_capture_best_effort"@,
        "no_scoring"@,
        "real_execution_deferred"@,
    ]);
    RunArtifact {
        schema_version: 1,
        run_id: owned(run_id),
        project: args.project.clone(),
        experiment: owned(experiment),
        status: owned("running"),
        dry_run: false,
        created_at: owned(timestamp),
        updated_at: owned(timestamp),
        suite: RunSuiteArtifact {
            path: suite.path.clone(),
            sha256: suite.sha256.clone(),
            prompt_count: suite.prompts.len(),
        },
        seed,
        seed_provided,
        replicates: args.replicates,
        variants: recorded_variants(variants),
        attempt_count,
        artifacts: default_run_artifact_paths(),
        execution: Some(fresh_execution_record(args, timestamp)),
        workgroup: Some(workgroup),
        warnings,
    }
}

/// A stored run taken up again at `timestamp`: running again, updated, with
/// the workgroup it now runs in; its execution record, if it has one,
/// restarted with the arguments `args` (see [`fresh_execution`]). Everything
/// else is kept.
pub fn resume_run_record(run: &mut RunArtifact, args: &RunArgs, timestamp: &str, workgroup: RunWorkgroupArtifact)
    ensures
        final(run).status@ == "running"@,
        final(run).updated_at@ == timestamp@,
        final(run).workgroup == Some(workgroup),
        match old(run).execution {
            Some(_) => final(run).execution matches Some(x) && fresh_execution(x, *args, timestamp@),
            None => final(run).execution is None,
        },
        final(run).schema_version == old(run).schema_version,
        final(run).run_id == old(run).run_id,
        final(run).project == old(run).project,
        final(run).experiment == old(run).experiment,
        final(run).dry_run == old(run).dry_run,
        final(run).created_at == old(run).created_at,
        final(run).suite == old(run).suite,
        final(run).seed == old(run).seed,
        final(run).seed_provided == old(run).seed_provided,
        final(run).replicates == old(run).replicates,
        final(run).variants == old(run).variants,
        final(run).attempt_count == old(run).attempt_count,
        final(run).artifacts == old(run).artifacts,
        final(run).warnings == old(run).warnings,
{
    run.status = owned("running");
    run.updated_at = owned(timestamp);
    run.workgroup = Some(workgroup);
    if run.execution.is_some() {
        run.execution = Some(fresh_execution_record(args, timestamp));
    }
}


/// The statuses that keep a run from being completed, most pressing first.
pub open spec fn unfinished_statuses() -> Seq<Seq<char>> {
    seq!["running"@, "failed"@, "timed_out"@, "inconclusive"@, "cancelled"@]
}

/// A real run is completed exactly when no attempt is running, failed,
/// timed out, inconclusive or cancelled; otherwise its status is the most
/// pressing of those that some attempt has (running, then failed, then timed
/// out, then inconclusive, then cancelled). In particular a run with a
/// timed-out attempt and none running or failed is timed out.
pub proof fn lemma_run_status_precedence(attempts: Seq<AttemptArtifact>)
    ensures
        (run_status_spec(attempts, false) == "completed"@) <==> (forall|i: int|
            0 <= i < attempts.len() ==> !unfinished_statuses().contains(#[trigger] attempts[i].status@)),
        forall|k: int|
            0 <= k < 5 && (exists|i: int| 0 <= i < attempts.len() && #[trigger] attempts[i].status@
                == unfinished_statuses()[k]) && (forall|j: int, i: int|
                0 <= j < k && 0 <= i < attempts.len() ==> #[trigger] attempts[i].status@ != #[trigger] unfinished_statuses()[j])
                ==> run_status_spec(attempts, false) == #[trigger] unfinished_statuses()[k],
{
    let u = unfinished_statuses();
    reveal_strlit("running");
    reveal_strlit("failed");
    reveal_strlit("timed_out");
    reveal_strlit("inconclusive");
    reveal_strlit("cancelled");
    reveal_strlit("completed");
    assert(u[0] == "running"@ && u[1] == "failed"@ && u[2] == "timed_out"@);
    assert(u[3] == "inconclusive"@ && u[4] == "cancelled"@);
    assert("completed"@.len() == 9 && "running"@.len() == 7 && "failed"@.len() == 6);
    assert("timed_out"@.len() == 9 && "inconclusive"@.len() == 12 && "cancelled"@.len() == 9);
    assert("completed"@[0] != "timed_out"@[0] && "completed"@[0] == "cancelled"@[0]);
    assert("completed"@[1] != "cancelled"@[1]);
    if run_status_spec(attempts, false) == "completed"@ {
        assert forall|i: int| 0 <= i < attempts.len() implies !u.contains(#[trigger] attempts[i].status@) by {
            if u.contains(attempts[i].status@) {
                let k = choose|k: int| 0 <= k < u.len() && u[k] == attempts[i].status@;
                assert(has_status(attempts, u[k]));
            }
        }
    } else {
        if forall|i: int| 0 <= i < attempts.len() ==> !u.contains(#[trigger] attempts[i].status@) {
            assert forall|k: int| 0 <= k < 5 implies !has_status(attempts, #[trigger] u[k]) by {
                if has_status(attempts, u[k]) {
                    let i = choose|i: int| 0 <= i < attempts.len() && #[trigger] attempts[i].status@ == u[k];
                    assert(u.contains(attempts[i].status@));
                }
            }
            assert(!has_status(attempts, u[0]));
        }
    }
    assert forall|k: int|
        0 <= k < 5 && (exists|i: int| 0 <= i < attempts.len() && #[trigger] attempts[i].status@ == u[k]) && (forall|
            j: int,
            i: int,
        | 0 <= j < k && 0 <= i < attempts.len() ==> #[trigger] attempts[i].status@ != #[trigger] u[j])
        implies run_status_spec(attempts, false) == #[trigger] u[k] by {
        assert(has_status(attempts, u[k]));
        assert forall|j: int| 0 <= j < k implies !has_status(attempts, #[trigger] u[j]) by {
            if has_status(attempts, u[j]) {
                let i = choose|i: int| 0 <= i < attempts.len() && #[trigger] attempts[i].status@ == u[j];
                assert(attempts[i].status@ != u[j]);
            }
        }
        if k >= 1 { assert(!has_status(attempts, u[0])); }
        if k >= 2 { assert(!has_status(attempts, u[1])); }
        if k >= 3 { assert(!has_status(attempts, u[2])); }
        if k >= 4 { assert(!has_status(attempts, u[3])); }
    }
}

} // verus!
