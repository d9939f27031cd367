//! `agency-templates`: the decisions around the local cache of Agency role
//! templates. Reading the lock, the file system and git is done by the caller;
//! what to do next after each of those steps is decided here.
use vstd::prelude::*;
use crate::cli::opt_view;
use crate::json::{json_u64_member, json_u64_member_of};
use crate::text::{
    strip_prefix_all, strip_prefix_all_exec, chars_of, contains_str, copy_chars, ends_with, ends_with_exec, has_char, is_ws, lines,
    lines_of, owned, slice_range, split_fields, starts_with, starts_with_exec, starts_with_str,
    str_eq, string_of, trim, trim_end_char, trim_ws, words, split_words, Sep, char_views,
};

verus! {

broadcast use vstd::string::group_string_axioms;

/// The repository the templates come from by default.
pub const DEFAULT_REPO: &'static str = "https://github.com/msitarzewski/agency-agents";

/// The git reference used by default.
pub const DEFAULT_REFERENCE: &'static str = "main";

/// The arguments of `agency-templates`.
pub struct AgencyTemplatesArgs {
    pub command: AgencyTemplatesCommand,
}

/// The subcommands of `agency-templates`.
pub enum AgencyTemplatesCommand {
    /// Download or refresh the template cache.
    Update(AgencyTemplatesUpdateArgs),
    /// Print the cached template metadata.
    List(AgencyTemplatesListArgs),
    /// Print the cache status.
    Status(AgencyTemplatesStatusArgs),
}

/// The arguments of `agency-templates update`.
pub struct AgencyTemplatesUpdateArgs {
    pub repo: String,
    pub reference: String,
    /// Kept for compatibility; output is always JSON.
    pub json: bool,
}

impl AgencyTemplatesUpdateArgs {
    /// The update the user interface requests: the default repository and
    /// reference.
    pub fn default_ui_update() -> (r: Self)
        ensures
            r.repo@ == DEFAULT_REPO@,
            r.reference@ == DEFAULT_REFERENCE@,
            r.json,
    {
        AgencyTemplatesUpdateArgs { repo: owned(DEFAULT_REPO), reference: owned(DEFAULT_REFERENCE), json: true }
    }
}

/// The arguments of `agency-templates list`.
pub struct AgencyTemplatesListArgs {
    pub json: bool,
    /// Pretty-print the JSON.
    pub pretty: bool,
}

/// The arguments of `agency-templates status`.
pub struct AgencyTemplatesStatusArgs {
    pub json: bool,
    pub pretty: bool,
}

/// What an update reports.
pub struct UpdateResult {
    pub repo: String,
    pub reference: String,
    pub commit: String,
    pub template_count: usize,
    /// The live cache directory.
    pub path: String,
    /// Whether a new cache was published.
    pub updated: bool,
}

/// The cache status as reported.
pub struct AgencyTemplatesStatus {
    pub available: bool,
    pub path: String,
    pub repo: Option<String>,
    pub reference: Option<String>,
    pub commit: Option<String>,
    pub template_count: Option<usize>,
    /// Why the cache is unavailable, when that is known.
    pub reason: Option<String>,
}

/// The manifest of a cache.
pub struct AgencyTemplatesManifest {
    pub repo: String,
    pub reference: String,
    pub commit: String,
    pub template_count: usize,
}

// ---------------------------------------------------------------------------
// Repository address.

pub const REPO_PREFIX: &'static str = "https://github.com/";

/// Error for an address that is not on github.com over https.
pub const NOT_GITHUB_ERROR: &'static str =
    "Only https://github.com/<owner>/<repo> Agency repositories are supported";

/// Error for a github.com address without exactly an owner and a repository.
pub const BAD_REPO_PATH_ERROR: &'static str =
    "Agency repository must be https://github.com/<owner>/<repo>";

pub open spec fn slash_pred() -> spec_fn(char) -> bool {
    |c: char| c == '/'
}

/// An accepted repository address: the github.com prefix, then (after any
/// trailing slashes are dropped) exactly two `/`-separated parts, neither
/// blank.
pub open spec fn repo_check_spec(input: Seq<char>) -> Result<(), Seq<char>> {
    if !starts_with(input, REPO_PREFIX@) {
        Err(NOT_GITHUB_ERROR@)
    } else {
        let rest = input.skip(REPO_PREFIX@.len() as int);
        let parts = crate::text::split_by(crate::text::trim_end_by(rest, slash_pred()), slash_pred());
        if parts.len() != 2 || trim_ws(parts[0]).len() == 0 || trim_ws(parts[1]).len() == 0 {
            Err(BAD_REPO_PATH_ERROR@)
        } else {
            Ok(())
        }
    }
}

/// Checks a repository address (see [`repo_check_spec`]).
pub fn parse_github_repo(input: &str) -> (r: Result<(), String>)
    ensures
        match r {
            Ok(()) => repo_check_spec(input@) == Ok::<(), Seq<char>>(()),
            Err(e) => repo_check_spec(input@) == Err::<(), Seq<char>>(e@),
        },
{
    let v = chars_of(input);
    if !starts_with_str(&v, REPO_PREFIX) {
        return Err(owned(NOT_GITHUB_ERROR));
    }
    let plen = chars_of(REPO_PREFIX).len();
    let rest = crate::text::slice_range(&v, plen, v.len());
    assert(rest@ =~= input@.skip(REPO_PREFIX@.len() as int));
    let trimmed = trim_end_char(&rest, '/');
    assert(slash_pred() == (|x: char| x == '/'));
    let parts = split_fields(&trimmed, &Sep::Char('/'));
    proof {
        assert(crate::text::sep_pred(Sep::Char('/')) == slash_pred());
    }
    if parts.len() != 2 {
        return Err(owned(BAD_REPO_PATH_ERROR));
    }
    let a = trim(&parts[0]);
    let b = trim(&parts[1]);
    assert(char_views(parts@)[0] == parts@[0]@);
    assert(char_views(parts@)[1] == parts@[1]@);
    if a.len() == 0 || b.len() == 0 {
        return Err(owned(BAD_REPO_PATH_ERROR));
    }
    Ok(())
}

// ---------------------------------------------------------------------------
// Small rules.

/// Top-level entries of the upstream repository that hold no roles.
pub open spec fn skipped_division_spec(name: Seq<char>) -> bool {
    ||| name == ".git"@
    ||| name == ".github"@
    ||| name == "scripts"@
    ||| name == "integrations"@
    ||| name == "examples"@
    ||| name == "docs"@
    ||| name == "node_modules"@
}

/// Whether a top-level upstream entry is skipped when roles are collected.
pub fn should_skip_upstream_division(name: &str) -> (r: bool)
    ensures
        r == skipped_division_spec(name@),
{
    str_eq(name, ".git") || str_eq(name, ".github") || str_eq(name, "scripts") || str_eq(
        name,
        "integrations",
    ) || str_eq(name, "examples") || str_eq(name, "docs") || str_eq(name, "node_modules")
}

/// Unicode control characters (general category Cc).
pub open spec fn is_control(c: char) -> bool {
    c <= '\u{1f}' || ('\u{7f}' <= c && c <= '\u{9f}')
}

/// Chars a role body keeps: all but NUL and the control chars other than
/// tab, line feed and carriage return.
pub open spec fn kept_in_body(c: char) -> bool {
    !(c == '\0' || (is_control(c) && !(c == '\t' || c == '\n' || c == '\r')))
}

pub open spec fn sanitize_spec(s: Seq<char>) -> Seq<char> {
    s.filter(|c: char| kept_in_body(c))
}

/// A role body without NUL and the control chars other than tab and line
/// breaks.
pub fn sanitize_agency_role_body(body: &str) -> (out: String)
    ensures
        out@ == sanitize_spec(body@),
{
    let v = chars_of(body);
    let mut out: Vec<char> = Vec::new();
    let mut i: usize = 0;
    while i < v.len()
        invariant
            i <= v@.len(),
            out@ == v@.take(i as int).filter(|c: char| kept_in_body(c)),
        decreases v@.len() - i,
    {
        let c = v[i];
        let control = c <= '\u{1f}' || ('\u{7f}' <= c && c <= '\u{9f}');
        let keep = !(c == '\0' || (control && !(c == '\t' || c == '\n' || c == '\r')));
        proof {
            let t = v@.take(i + 1);
            assert(t.drop_last() =~= v@.take(i as int));
            reveal(Seq::filter);
        }
        if keep {
            out.push(c);
        }
        i = i + 1;
    }
    assert(v@.take(i as int) =~= v@);
    string_of(&out)
}

pub open spec fn is_hex_digit(c: char) -> bool {
    ('0' <= c && c <= '9') || ('a' <= c && c <= 'f') || ('A' <= c && c <= 'F')
}

pub open spec fn is_sha(t: Seq<char>) -> bool {
    t.len() == 40 && forall|i: int| 0 <= i < 40 ==> is_hex_digit(#[trigger] t[i])
}

/// The first word of each line, for the lines that have one.
pub open spec fn first_words(ls: Seq<Seq<char>>) -> Seq<Seq<char>>
    decreases ls.len(),
{
    if ls.len() == 0 {
        Seq::empty()
    } else {
        let w = words(ls[0]);
        if w.len() > 0 {
            seq![w[0]] + first_words(ls.drop_first())
        } else {
            first_words(ls.drop_first())
        }
    }
}

/// The first of `ws` that is a 40-digit hex commit id.
pub open spec fn first_sha(ws: Seq<Seq<char>>) -> Option<Seq<char>>
    decreases ws.len(),
{
    if ws.len() == 0 {
        None
    } else if is_sha(ws[0]) {
        Some(ws[0])
    } else {
        first_sha(ws.drop_first())
    }
}

pub const NO_SHA_ERROR: &'static str = "git ls-remote did not return a 40-character commit sha";

/// The commit named in the output of `git ls-remote`: the first line whose
/// first word is a 40-digit hex id.
pub open spec fn commit_from_ls_remote_spec(stdout: Seq<char>) -> Result<Seq<char>, Seq<char>> {
    match first_sha(first_words(lines(stdout))) {
        Some(s) => Ok(s),
        None => Err(NO_SHA_ERROR@),
    }
}

fn is_sha_exec(t: &[char]) -> (r: bool)
    ensures
        r == is_sha(t@),
{
    if t.len() != 40 {
        return false;
    }
    let mut i: usize = 0;
    while i < 40
        invariant
            i <= 40,
            t@.len() == 40,
            forall|k: int| 0 <= k < i ==> is_hex_digit(#[trigger] t@[k]),
        decreases 40 - i,
    {
        let c = t[i];
        if !(('0' <= c && c <= '9') || ('a' <= c && c <= 'f') || ('A' <= c && c <= 'F')) {
            return false;
        }
        i = i + 1;
    }
    true
}

/// The commit named in the output of `git ls-remote` (see
/// [`commit_from_ls_remote_spec`]).
pub fn commit_from_ls_remote(stdout: &str) -> (r: Result<String, String>)
    ensures
        match r {
            Ok(s) => commit_from_ls_remote_spec(stdout@) == Ok::<Seq<char>, Seq<char>>(s@),
            Err(e) => commit_from_ls_remote_spec(stdout@) == Err::<Seq<char>, Seq<char>>(e@),
        },
{
    let v = chars_of(stdout);
    let ls = lines_of(&v);
    let ghost lv = char_views(ls@);
    let mut i: usize = 0;
    assert(lv.skip(0) =~= lv);
    while i < ls.len()
        invariant
            i <= ls@.len(),
            lv == char_views(ls@),
            lv == lines(stdout@),
            first_sha(first_words(lv)) == first_sha(first_words(lv.skip(i as int))),
        decreases ls@.len() - i,
    {
        let ws = split_words(&ls[i]);
        let ghost rest = lv.skip(i as int);
        assert(rest[0] == ls@[i as int]@);
        assert(rest.drop_first() =~= lv.skip(i + 1));
        if ws.len() > 0 {
            assert(char_views(ws@)[0] == ws@[0]@);
            assert(first_words(rest) == seq![ws@[0]@] + first_words(lv.skip(i + 1)));
            assert((seq![ws@[0]@] + first_words(lv.skip(i + 1)))[0] == ws@[0]@);
            assert((seq![ws@[0]@] + first_words(lv.skip(i + 1))).drop_first() =~= first_words(
                lv.skip(i + 1),
            ));
            if is_sha_exec(&ws[0]) {
                let ghost fw = seq![ws@[0]@] + first_words(lv.skip(i + 1));
                assert(fw.len() > 0 && is_sha(fw[0]));
                assert(first_sha(fw) == Some(fw[0]));
                assert(first_sha(first_words(lv)) == Some(ws@[0]@));
                assert(lines(stdout@) == lv);
                let found = string_of(&ws[0]);
                assert(found@ == ws@[0]@);
                return Ok(found);
            }
        }
        i = i + 1;
    }
    assert(first_words(lv.skip(i as int)) =~= Seq::<Seq<char>>::empty());
    Err(owned(NO_SHA_ERROR))
}

// ---------------------------------------------------------------------------
// Reading the status under the cache lock.

/// What happened at the last step of reading the status.
pub enum CacheEvent {
    /// The cache lock was taken, or not (with the reason).
    Locked(Result<(), String>),
    /// An interrupted publish was repaired, or not (with the reason).
    Recovered(Result<String, String>),
    /// The status of the cache as it now is.
    StatusRead(AgencyTemplatesStatus),
}

/// What to do next.
pub enum CacheAction {
    /// Repair an interrupted publish, still holding the lock.
    Recover,
    /// Release the lock, then read the status of the cache.
    ReadStatus,
    /// Stop with this result.
    Finish(Result<AgencyTemplatesStatus, String>),
}

/// The owner recorded in a cache lock file's text: its `pid` member, when
/// that is a whole number that fits a process id.
pub open spec fn lock_pid_spec(text: Seq<char>) -> Option<u32> {
    match json_u64_member_of(text, "pid"@) {
        Some(p) => if p <= u32::MAX {
            Some(p as u32)
        } else {
            None
        },
        None => None,
    }
}

/// The process that holds a cache lock, read from the lock file's text (see
/// [`lock_pid_spec`]); none when the text names none.
pub fn lock_owner_pid(text: &str) -> (r: Option<u32>)
    ensures
        r == lock_pid_spec(text@),
{
    match json_u64_member(text, "pid") {
        Some(p) => if p <= 0xffff_ffffu64 {
            Some(p as u32)
        } else {
            None
        },
        None => None,
    }
}

/// Whether a cache lock left behind may be removed: when it names its
/// owner, once that process no longer runs; when it does not, only when the
/// live cache is missing and exactly one valid previous cache exists to
/// recover from.
pub fn lock_is_stale(pid: Option<u32>, owner_running: bool, live_exists: bool, valid_previous: usize) -> (r: bool)
    ensures
        r == match pid {
            Some(_) => !owner_running,
            None => !live_exists && valid_previous == 1,
        },
{
    match pid {
        Some(_) => !owner_running,
        None => !live_exists && valid_previous == 1,
    }
}

/// Whether a directory entry named `name` is a previous cache of the cache
/// directory `templates_dir`: `<templates_dir>.prev-<anything>`.
pub fn is_previous_cache_name(name: &str, templates_dir: &str) -> (r: bool)
    ensures
        r == starts_with(name@, templates_dir@ + ".prev-"@),
{
    let mut prefix = chars_of(templates_dir);
    crate::text::append_str(&mut prefix, ".prev-");
    let nv = chars_of(name);
    starts_with_exec(&nv, &prefix)
}

/// The status of an unavailable cache at `path`, for `reason`.
pub fn unavailable_status(path: &str, reason: &str) -> (r: AgencyTemplatesStatus)
    ensures
        !r.available,
        r.path@ == path@,
        r.repo.is_none() && r.reference.is_none() && r.commit.is_none() && r.template_count.is_none(),
        r.reason.is_some() && r.reason->0@ == reason@,
{
    AgencyTemplatesStatus {
        available: false,
        path: owned(path),
        repo: None,
        reference: None,
        commit: None,
        template_count: None,
        reason: Some(owned(reason)),
    }
}

/// `s` reports the cache at `path` as unavailable for `reason`, with no
/// repository, reference, commit or template count.
pub open spec fn unavailable_at(s: AgencyTemplatesStatus, path: Seq<char>, reason: Seq<char>) -> bool {
    &&& !s.available
    &&& s.path@ == path
    &&& s.repo is None && s.reference is None && s.commit is None && s.template_count is None
    &&& s.reason is Some && s.reason->0@ == reason
}

/// One step of the status protocol: take the lock; when another update holds
/// it, report the cache as locked; then repair an interrupted publish,
/// reporting an invalid cache as such; then read the status. Other failures
/// stop it with their message. `live` is the live cache directory.
pub open spec fn status_step(live: Seq<char>, event: CacheEvent, r: CacheAction) -> bool {
    match event {
        CacheEvent::Locked(Ok(())) => r is Recover,
        CacheEvent::Locked(Err(e)) => if crate::text::contains_sub(e@, "already running"@) {
            r matches CacheAction::Finish(Ok(s)) && unavailable_at(s, live, "locked"@)
        } else {
            r matches CacheAction::Finish(Err(m)) && m@ == e@
        },
        CacheEvent::Recovered(Ok(_)) => r is ReadStatus,
        CacheEvent::Recovered(Err(e)) => if starts_with(e@, "cacheInvalid"@) {
            r matches CacheAction::Finish(Ok(s)) && unavailable_at(s, live, "cacheInvalid"@)
        } else {
            r matches CacheAction::Finish(Err(m)) && m@ == e@
        },
        CacheEvent::StatusRead(s) => r matches CacheAction::Finish(Ok(t)) && t == s,
    }
}

/// One step of the status protocol (see [`status_step`]) for the live cache
/// directory `live_path`.
pub fn status_cache_at(live_path: &str, event: CacheEvent) -> (r: CacheAction)
    ensures
        status_step(live_path@, event, r),
{
    match event {
        CacheEvent::Locked(Ok(())) => CacheAction::Recover,
        CacheEvent::Locked(Err(e)) => {
            let ev = chars_of(e.as_str());
            if contains_str(&ev, "already running") {
                CacheAction::Finish(Ok(unavailable_status(live_path, "locked")))
            } else {
                CacheAction::Finish(Err(e))
            }
        },
        CacheEvent::Recovered(Ok(_)) => CacheAction::ReadStatus,
        CacheEvent::Recovered(Err(e)) => {
            let ev = chars_of(e.as_str());
            if starts_with_str(&ev, "cacheInvalid") {
                CacheAction::Finish(Ok(unavailable_status(live_path, "cacheInvalid")))
            } else {
                CacheAction::Finish(Err(e))
            }
        },
        CacheEvent::StatusRead(s) => CacheAction::Finish(Ok(s)),
    }
}

/// Error when the configuration directory cannot be resolved.
pub const NO_CONFIG_DIR_ERROR: &'static str = "Could not resolve AgentsCommander config dir";

/// The status protocol for the cache of this instance: `live_path` is its
/// live cache directory, none when the configuration directory could not be
/// resolved, which stops the protocol at once.
pub fn status_cache(live_path: Option<&str>, event: CacheEvent) -> (r: CacheAction)
    ensures
        live_path.is_none() ==> (r matches CacheAction::Finish(Err(m)) && m@ == NO_CONFIG_DIR_ERROR@),
        live_path.is_some() ==> status_step(live_path->0@, event, r),
{
    match live_path {
        None => CacheAction::Finish(Err(owned(NO_CONFIG_DIR_ERROR))),
        Some(p) => status_cache_at(p, event),
    }
}

// ---------------------------------------------------------------------------
// The update protocol.

/// What happened at the last step of an update.
pub enum UpdateEvent {
    /// The cache lock was taken, or not.
    Locked(Result<(), String>),
    /// An interrupted publish was repaired, or not.
    Recovered(Result<String, String>),
    /// Leftovers of earlier publishes were removed.
    ResidueCleaned,
    /// The reference was resolved to a commit, or not.
    CommitResolved(Result<String, String>),
    /// The manifest of the live cache, if it is valid, for the resolved
    /// `commit`.
    CurrentManifest { commit: String, current: Result<AgencyTemplatesManifest, String> },
    /// The commit was fetched and a validated cache staged, with its
    /// manifest; or that failed.
    Staged(Result<AgencyTemplatesManifest, String>),
    /// The staged cache with `manifest` was published, or not.
    Published { manifest: AgencyTemplatesManifest, result: Result<(), String> },
}

/// What an update does next.
pub enum UpdateAction {
    Recover,
    CleanResidue,
    ResolveCommit,
    /// Read the live cache's manifest, to compare with this commit.
    ReadCurrentManifest(String),
    /// Fetch this commit and stage a validated cache from it.
    FetchAndStage(String),
    /// Publish the staged cache.
    Publish,
    Finish(Result<UpdateResult, String>),
}

pub open spec fn same_source(m: AgencyTemplatesManifest, repo: Seq<char>, reference: Seq<char>, commit: Seq<char>) -> bool {
    m.repo@ == repo && m.reference@ == reference && m.commit@ == commit
}

/// The report of an update from the manifest `m` of the live cache at
/// `live`.
pub open spec fn reports(r: UpdateResult, m: AgencyTemplatesManifest, live: Seq<char>, updated: bool) -> bool {
    &&& r.repo@ == m.repo@
    &&& r.reference@ == m.reference@
    &&& r.commit@ == m.commit@
    &&& r.template_count == m.template_count
    &&& r.path@ == live
    &&& r.updated == updated
}

/// One step of the update protocol: take the lock, repair an interrupted
/// publish, clean leftovers, check the repository address, resolve the
/// reference to a commit; when the live cache already holds that commit of
/// that repository and reference, stop and report it as not updated;
/// otherwise fetch and stage, publish, and report the published cache as
/// updated. A failing step stops the protocol with its message.
pub open spec fn update_step(
    repo: Seq<char>,
    reference: Seq<char>,
    live: Seq<char>,
    event: UpdateEvent,
    r: UpdateAction,
) -> bool {
    match event {
        UpdateEvent::Locked(Ok(())) => r is Recover,
        UpdateEvent::Locked(Err(e)) => r matches UpdateAction::Finish(Err(m)) && m@ == e@,
        UpdateEvent::Recovered(Ok(_)) => r is CleanResidue,
        UpdateEvent::Recovered(Err(e)) => r matches UpdateAction::Finish(Err(m)) && m@ == e@,
        UpdateEvent::ResidueCleaned => match repo_check_spec(repo) {
            Ok(()) => r is ResolveCommit,
            Err(e) => r matches UpdateAction::Finish(Err(m)) && m@ == e,
        },
        UpdateEvent::CommitResolved(Ok(c)) => r matches UpdateAction::ReadCurrentManifest(x)
            && x@ == c@,
        UpdateEvent::CommitResolved(Err(e)) => r matches UpdateAction::Finish(Err(m)) && m@ == e@,
        UpdateEvent::CurrentManifest { commit, current } => match current {
            Ok(m) => if same_source(m, repo, reference, commit@) {
                r matches UpdateAction::Finish(Ok(u)) && reports(u, m, live, false)
            } else {
                r matches UpdateAction::FetchAndStage(x) && x@ == commit@
            },
            Err(_) => r matches UpdateAction::FetchAndStage(x) && x@ == commit@,
        },
        UpdateEvent::Staged(Ok(_)) => r is Publish,
        UpdateEvent::Staged(Err(e)) => r matches UpdateAction::Finish(Err(m)) && m@ == e@,
        UpdateEvent::Published { manifest, result } => match result {
            Ok(()) => r matches UpdateAction::Finish(Ok(u)) && reports(u, manifest, live, true),
            Err(e) => r matches UpdateAction::Finish(Err(m)) && m@ == e@,
        },
    }
}

fn report_of(m: &AgencyTemplatesManifest, live_path: &str, updated: bool) -> (r: UpdateResult)
    ensures
        reports(r, *m, live_path@, updated),
{
    UpdateResult {
        repo: m.repo.clone(),
        reference: m.reference.clone(),
        commit: m.commit.clone(),
        template_count: m.template_count,
        path: owned(live_path),
        updated,
    }
}

/// One step of the update protocol (see [`update_step`]) for the live cache
/// directory `live_path`.
pub fn update_cache_at(
    live_path: &str,
    args: &AgencyTemplatesUpdateArgs,
    event: UpdateEvent,
) -> (r: UpdateAction)
    ensures
        update_step(args.repo@, args.reference@, live_path@, event, r),
{
    match event {
        UpdateEvent::Locked(Ok(())) => UpdateAction::Recover,
        UpdateEvent::Locked(Err(e)) => UpdateAction::Finish(Err(e)),
        UpdateEvent::Recovered(Ok(_)) => UpdateAction::CleanResidue,
        UpdateEvent::Recovered(Err(e)) => UpdateAction::Finish(Err(e)),
        UpdateEvent::ResidueCleaned => match parse_github_repo(args.repo.as_str()) {
            Ok(()) => UpdateAction::ResolveCommit,
            Err(e) => UpdateAction::Finish(Err(e)),
        },
        UpdateEvent::CommitResolved(Ok(c)) => UpdateAction::ReadCurrentManifest(c),
        UpdateEvent::CommitResolved(Err(e)) => UpdateAction::Finish(Err(e)),
        UpdateEvent::CurrentManifest { commit, current } => match current {
            Ok(m) => {
                if str_eq(m.repo.as_str(), args.repo.as_str()) && str_eq(
                    m.reference.as_str(),
                    args.reference.as_str(),
                ) && str_eq(m.commit.as_str(), commit.as_str()) {
                    UpdateAction::Finish(Ok(report_of(&m, live_path, false)))
                } else {
                    UpdateAction::FetchAndStage(commit)
                }
            },
            Err(_) => UpdateAction::FetchAndStage(commit),
        },
        UpdateEvent::Staged(Ok(_)) => UpdateAction::Publish,
        UpdateEvent::Staged(Err(e)) => UpdateAction::Finish(Err(e)),
        UpdateEvent::Published { manifest, result } => match result {
            Ok(()) => UpdateAction::Finish(Ok(report_of(&manifest, live_path, true))),
            Err(e) => UpdateAction::Finish(Err(e)),
        },
    }
}

/// One step of the update protocol for the cache of this instance:
/// `live_path` is its live cache directory, none when the configuration
/// directory could not be resolved, which stops the protocol at once.
pub fn update_cache(
    live_path: Option<&str>,
    args: &AgencyTemplatesUpdateArgs,
    event: UpdateEvent,
) -> (r: UpdateAction)
    ensures
        live_path.is_none() ==> (r matches UpdateAction::Finish(Err(m)) && m@ == NO_CONFIG_DIR_ERROR@),
        live_path.is_some() ==> update_step(args.repo@, args.reference@, live_path->0@, event, r),
{
    match live_path {
        None => UpdateAction::Finish(Err(owned(NO_CONFIG_DIR_ERROR))),
        Some(p) => update_cache_at(p, args, event),
    }
}

/// An update never fetches when the live cache already holds the resolved
/// commit of the requested repository and reference: it reports that cache,
/// as not updated.
pub proof fn lemma_current_cache_is_not_refetched(
    repo: Seq<char>,
    reference: Seq<char>,
    live: Seq<char>,
    commit: String,
    m: AgencyTemplatesManifest,
    r: UpdateAction,
)
    requires
        same_source(m, repo, reference, commit@),
        update_step(repo, reference, live, UpdateEvent::CurrentManifest { commit, current: Ok(m) }, r),
    ensures
        !(r is FetchAndStage),
        r matches UpdateAction::Finish(Ok(u)) && !u.updated && u.commit@ == commit@ && u.path@ == live,
{
}

// ---------------------------------------------------------------------------
// YAML scalars in normalized role front matter.

/// The document `serde_yaml::to_string` writes for the string `value`, when
/// it writes one.
pub uninterp spec fn yaml_document_of(value: Seq<char>) -> Option<Seq<char>>;

/// `serde_yaml::to_string` on a string. The contract names the document it
/// writes (`yaml_document_of`), or that it failed.
#[verifier::external_body]
fn yaml_document(value: &str) -> (r: Option<String>)
    ensures
        opt_view(r) == yaml_document_of(value@),
{
    serde_yaml::to_string(value).ok()
}

/// The `Debug` text of a string: quoted, with escapes.
pub uninterp spec fn debug_text_of(value: Seq<char>) -> Seq<char>;

/// `format!("{:?}", value)` on a string. The contract names the text
/// (`debug_text_of`).
#[verifier::external_body]
fn debug_text(value: &str) -> (r: String)
    ensures
        r@ == debug_text_of(value@),
{
    format!("{:?}", value)
}

/// `s` with every trailing repetition of `p` removed.
pub open spec fn strip_suffix_all(s: Seq<char>, p: Seq<char>) -> Seq<char>
    decreases s.len(),
{
    if p.len() > 0 && ends_with(s, p) {
        strip_suffix_all(s.take(s.len() - p.len()), p)
    } else {
        s
    }
}

/// A YAML scalar for a front-matter value: the YAML document of the string
/// (its `Debug` text should writing fail) without the document markers
/// `---` and `...` and the white space around them.
pub open spec fn yaml_scalar_spec(value: Seq<char>) -> Seq<char> {
    let doc = match yaml_document_of(value) {
        Some(d) => d,
        None => debug_text_of(value),
    };
    trim_ws(strip_suffix_all(trim_ws(strip_prefix_all(trim_ws(doc), "---"@)), "..."@))
}

fn strip_suffix_all_exec(v: &[char], p: &[char]) -> (out: Vec<char>)
    ensures
        out@ == strip_suffix_all(v@, p@),
{
    let mut rest = copy_chars(v);
    let mut more = p.len() > 0 && ends_with_exec(&rest, p);
    assert(rest@ == v@);
    while more
        invariant
            strip_suffix_all(rest@, p@) == strip_suffix_all(v@, p@),
            more == (p@.len() > 0 && ends_with(rest@, p@)),
        decreases rest@.len(),
    {
        let next = slice_range(&rest, 0, rest.len() - p.len());
        assert(next@ =~= rest@.take(rest@.len() - p@.len()));
        rest = next;
        more = ends_with_exec(&rest, p);
    }
    rest
}

/// A YAML scalar for a front-matter value (see [`yaml_scalar_spec`]).
pub fn yaml_scalar(value: &str) -> (out: String)
    ensures
        out@ == yaml_scalar_spec(value@),
{
    let doc = match yaml_document(value) {
        Some(d) => d,
        None => debug_text(value),
    };
    let a = trim(&chars_of(doc.as_str()));
    let dashes = chars_of("---");
    let b = strip_prefix_all_exec(&a, &dashes);
    let c = trim(&b);
    let dots = chars_of("...");
    let d = strip_suffix_all_exec(&c, &dots);
    let e = trim(&d);
    string_of(&e)
}

} // verus!
