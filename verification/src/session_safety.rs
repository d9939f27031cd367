//! Refusing to delete a directory while live sessions work under it: which
//! sessions are under a root, and how the refusal reads.
use vstd::prelude::*;
use crate::list_peers::SessionStatus;
use crate::text::{
    append_chars, append_str, chars_of, decimal, join, push_decimal, starts_with, starts_with_exec,
    string_of, trim_end_by, trim_end_char, views, char_views, join_chars,
};

verus! {

broadcast use vstd::string::group_string_axioms;

/// A live session that blocks a deletion.
#[derive(Debug)]
pub struct LiveSessionBlocker {
    pub name: String,
    pub working_directory: String,
    pub status: String,
    /// The daemon is not confirmed running, so the record may be stale.
    pub stale_state: bool,
}

pub open spec fn unc_prefix() -> Seq<char> {
    seq!['\\', '\\', '?', '\\', 'U', 'N', 'C', '\\']
}

pub open spec fn long_prefix() -> Seq<char> {
    seq!['\\', '\\', '?', '\\']
}

/// A path without its extended-length prefix: `\\?\UNC\server` becomes
/// `\\server`, `\\?\C:` becomes `C:`.
pub open spec fn strip_long_prefix_spec(s: Seq<char>) -> Seq<char> {
    if starts_with(s, unc_prefix()) {
        seq!['\\', '\\'] + s.skip(8)
    } else if starts_with(s, long_prefix()) {
        s.skip(4)
    } else {
        s
    }
}

/// A path without its extended-length prefix (see [`strip_long_prefix_spec`]).
pub fn strip_long_prefix(s: &str) -> (out: String)
    ensures
        out@ == strip_long_prefix_spec(s@),
{
    let v = chars_of(s);
    let unc: Vec<char> = vec!['\\', '\\', '?', '\\', 'U', 'N', 'C', '\\'];
    let long: Vec<char> = vec!['\\', '\\', '?', '\\'];
    assert(unc@ =~= unc_prefix());
    assert(long@ =~= long_prefix());
    if starts_with_exec(&v, &unc) {
        let mut out: Vec<char> = vec!['\\', '\\'];
        let rest = crate::text::slice_range(&v, 8, v.len());
        append_chars(&mut out, &rest);
        assert(out@ =~= seq!['\\', '\\'] + s@.skip(8));
        string_of(&out)
    } else if starts_with_exec(&v, &long) {
        let rest = crate::text::slice_range(&v, 4, v.len());
        assert(rest@ =~= s@.skip(4));
        string_of(&rest)
    } else {
        string_of(&v)
    }
}

/// The comparison key of a path: trailing slashes removed.
pub open spec fn path_key_spec(p: Seq<char>) -> Seq<char> {
    trim_end_by(p, |c: char| c == '/')
}

/// The comparison key of a path (see [`path_key_spec`]).
pub fn path_key(path: &str) -> (out: String)
    ensures
        out@ == path_key_spec(path@),
{
    let v = chars_of(path);
    let t = trim_end_char(&v, '/');
    string_of(&t)
}

/// `candidate` is `root` or lies below it.
pub open spec fn is_under_spec(candidate: Seq<char>, root: Seq<char>) -> bool {
    let c = path_key_spec(candidate);
    let r = path_key_spec(root);
    c == r || starts_with(c, r.push('/'))
}

/// Whether `candidate` is `root` or lies below it, by their keys.
pub fn path_is_under(candidate: &str, root: &str) -> (r: bool)
    ensures
        r == is_under_spec(candidate@, root@),
{
    let c = path_key(candidate);
    let rk = path_key(root);
    let cv = chars_of(c.as_str());
    let mut rv = chars_of(rk.as_str());
    if crate::text::seq_eq(&cv, &rv) {
        return true;
    }
    rv.push('/');
    starts_with_exec(&cv, &rv)
}

/// How a session status is shown: its variant name, with the exit code for
/// an exited session; `Unknown` without a status.
pub open spec fn status_text_spec(s: Option<SessionStatus>) -> Seq<char> {
    match s {
        None => "Unknown"@,
        Some(SessionStatus::Active) => "Active"@,
        Some(SessionStatus::Running) => "Running"@,
        Some(SessionStatus::Idle) => "Idle"@,
        Some(SessionStatus::Exited(n)) => "Exited("@ + (if n < 0 {
            seq!['-'] + decimal((-n) as nat)
        } else {
            decimal(n as nat)
        }) + ")"@,
    }
}

/// How a session status is shown (see [`status_text_spec`]).
pub fn status_text(s: Option<SessionStatus>) -> (out: String)
    ensures
        out@ == status_text_spec(s),
{
    match s {
        None => crate::text::owned("Unknown"),
        Some(SessionStatus::Active) => crate::text::owned("Active"),
        Some(SessionStatus::Running) => crate::text::owned("Running"),
        Some(SessionStatus::Idle) => crate::text::owned("Idle"),
        Some(SessionStatus::Exited(n)) => {
            let mut v: Vec<char> = Vec::new();
            append_str(&mut v, "Exited(");
            if n < 0 {
                v.push('-');
                let m: u64 = (0i64 - n as i64) as u64;
                push_decimal(&mut v, m);
            } else {
                push_decimal(&mut v, n as u64);
            }
            append_str(&mut v, ")");
            string_of(&v)
        },
    }
}

/// A live session record, its working directory in canonical form.
pub struct LiveSession {
    pub name: String,
    pub working_directory: String,
    pub canonical_directory: String,
    pub status: Option<SessionStatus>,
}

pub struct BlockerView {
    pub name: Seq<char>,
    pub working_directory: Seq<char>,
    pub status: Seq<char>,
    pub stale_state: bool,
}

impl View for LiveSessionBlocker {
    type V = BlockerView;

    open spec fn view(&self) -> BlockerView {
        BlockerView {
            name: self.name@,
            working_directory: self.working_directory@,
            status: self.status@,
            stale_state: self.stale_state,
        }
    }
}

pub open spec fn blocker_views(v: Seq<LiveSessionBlocker>) -> Seq<BlockerView> {
    v.map_values(|b: LiveSessionBlocker| b@)
}

/// The blockers among `sessions`: those whose canonical directory is under
/// `root`, in order, each marked stale when the daemon is not confirmed
/// running.
pub open spec fn blockers_spec(sessions: Seq<LiveSession>, root: Seq<char>, stale: bool) -> Seq<
    BlockerView,
>
    decreases sessions.len(),
{
    if sessions.len() == 0 {
        Seq::empty()
    } else {
        let prev = blockers_spec(sessions.drop_last(), root, stale);
        let s = sessions.last();
        if is_under_spec(s.canonical_directory@, root) {
            prev.push(
                BlockerView {
                    name: s.name@,
                    working_directory: s.working_directory@,
                    status: status_text_spec(s.status),
                    stale_state: stale,
                },
            )
        } else {
            prev
        }
    }
}

/// The live sessions under `root` (its canonical form), as blockers (see
/// [`blockers_spec`]).
pub fn find_live_sessions_under(root: &str, sessions: &Vec<LiveSession>, stale_state: bool) -> (out:
    Vec<LiveSessionBlocker>)
    ensures
        blocker_views(out@) == blockers_spec(sessions@, root@, stale_state),
{
    let mut out: Vec<LiveSessionBlocker> = Vec::new();
    let mut i: usize = 0;
    while i < sessions.len()
        invariant
            i <= sessions@.len(),
            blocker_views(out@) == blockers_spec(sessions@.take(i as int), root@, stale_state),
        decreases sessions@.len() - i,
    {
        let s = &sessions[i];
        let ghost t = sessions@.take(i + 1);
        assert(t.drop_last() =~= sessions@.take(i as int));
        assert(t.last() == sessions@[i as int]);
        if path_is_under(s.canonical_directory.as_str(), root) {
            let b = LiveSessionBlocker {
                name: s.name.clone(),
                working_directory: s.working_directory.clone(),
                status: status_text(s.status),
                stale_state,
            };
            let ghost before = blocker_views(out@);
            let ghost bv = b@;
            out.push(b);
            assert(blocker_views(out@) =~= before.push(bv));
        }
        i = i + 1;
    }
    assert(sessions@.take(i as int) =~= sessions@);
    out
}

pub open spec fn blocker_line(b: BlockerView) -> Seq<char> {
    "  - "@ + b.name + " at "@ + b.working_directory + " ("@ + b.status + ")"@
}

pub open spec fn any_stale(bs: Seq<BlockerView>) -> bool {
    exists|i: int| 0 <= i < bs.len() && #[trigger] bs[i].stale_state
}

pub open spec fn stale_note() -> Seq<char> {
    "\nDaemon state is not confirmed running, so this may be stale session state. Close sessions or clear stale state before retrying."@
}

/// The refusal when `blockers` is not empty; `root` as displayed.
pub open spec fn ensure_spec(root: Seq<char>, bs: Seq<BlockerView>) -> Result<(), Seq<char>> {
    if bs.len() == 0 {
        Ok(())
    } else {
        Err(
            "Cannot delete while live sessions exist under "@ + root + ":\n"@ + join(
                bs.map_values(|b: BlockerView| blocker_line(b)),
                "\n"@,
            ) + (if any_stale(bs) {
                stale_note()
            } else {
                Seq::empty()
            }),
        )
    }
}

/// Refuses a deletion under `root` (as displayed) while `blockers` hold
/// live sessions (see [`ensure_spec`]).
pub fn ensure_no_live_sessions_under(root: &str, blockers: &Vec<LiveSessionBlocker>) -> (r: Result<
    (),
    String,
>)
    ensures
        match r {
            Ok(()) => ensure_spec(root@, blocker_views(blockers@)) == Ok::<(), Seq<char>>(()),
            Err(e) => ensure_spec(root@, blocker_views(blockers@)) == Err::<(), Seq<char>>(e@),
        },
{
    if blockers.len() == 0 {
        return Ok(());
    }
    let ghost bv = blocker_views(blockers@);
    let mut lines: Vec<Vec<char>> = Vec::new();
    let mut stale = false;
    let mut i: usize = 0;
    while i < blockers.len()
        invariant
            i <= blockers@.len(),
            bv == blocker_views(blockers@),
            char_views(lines@) == bv.take(i as int).map_values(|b: BlockerView| blocker_line(b)),
            stale == exists|k: int| 0 <= k < i && #[trigger] bv[k].stale_state,
        decreases blockers@.len() - i,
    {
        let b = &blockers[i];
        let mut line: Vec<char> = Vec::new();
        append_str(&mut line, "  - ");
        append_str(&mut line, b.name.as_str());
        append_str(&mut line, " at ");
        append_str(&mut line, b.working_directory.as_str());
        append_str(&mut line, " (");
        append_str(&mut line, b.status.as_str());
        append_str(&mut line, ")");
        let ghost before = char_views(lines@);
        let ghost lv = line@;
        assert(bv[i as int] == b@);
        lines.push(line);
        assert(char_views(lines@) =~= before.push(lv));
        assert(bv.take(i + 1).map_values(|x: BlockerView| blocker_line(x)) =~= bv.take(i as int).map_values(
            |x: BlockerView| blocker_line(x),
        ).push(blocker_line(bv[i as int])));
        proof {
            if b.stale_state {
                assert(bv[i as int].stale_state);
            }
        }
        stale = stale || b.stale_state;
        i = i + 1;
    }
    assert(bv.take(i as int) =~= bv);
    let nl = chars_of("\n");
    let list = join_chars(&lines, &nl);
    let mut m: Vec<char> = Vec::new();
    append_str(&mut m, "Cannot delete while live sessions exist under ");
    append_str(&mut m, root);
    append_str(&mut m, ":\n");
    append_chars(&mut m, &list);
    if stale {
        append_str(
            &mut m,
            "\nDaemon state is not confirmed running, so this may be stale session state. Close sessions or clear stale state before retrying.",
        );
    }
    Err(string_of(&m))
}

} // verus!
