//! Peer listing: how a peer's session state is derived from the persisted
//! session rows, the lean projection with its one-line role summary, the
//! role-section extraction from a role document, and the `--peer` filter.
use vstd::prelude::*;
use crate::cli::{require_token_and_root, token_check_spec, CliFailure, MISSING_ROOT_ERROR};
use crate::text::{
    after_char, append_str, char_views, chars_of, is_ws, join, join_chars, lines, lines_of, owned,
    seq_eq, slice_range, split_once_char, starts_with, starts_with_str, str_eq, string_of,
    to_lowercase, trim, trim_end_by, trim_end_char, trim_ws, unicode_lowercase, views,
};

verus! {

broadcast use vstd::string::group_string_axioms;

/// Longest role summary, in chars, including a trailing ellipsis.
pub const ROLE_SUMMARY_MAX: usize = 80;

/// Lifecycle state of a persisted session.
#[derive(PartialEq, Eq, Structural, Clone, Copy, Debug)]
pub enum SessionStatus {
    Active,
    Running,
    Idle,
    Exited(i32),
}

/// One row of the persisted session list, as far as peer listing reads it.
pub struct PersistedSession {
    pub name: String,
    pub working_directory: String,
    pub id: Option<String>,
    pub status: Option<SessionStatus>,
    pub waiting_for_input: Option<bool>,
}

impl Default for PersistedSession {
    fn default() -> (r: Self)
        ensures
            r.name@ == Seq::<char>::empty(),
            r.working_directory@ == Seq::<char>::empty(),
            r.id.is_none(),
            r.status.is_none(),
            r.waiting_for_input.is_none(),
    {
        PersistedSession {
            name: String::new(),
            working_directory: String::new(),
            id: None,
            status: None,
            waiting_for_input: None,
        }
    }
}

/// A session that may belong to a peer.
pub struct CandidateSession {
    pub id: String,
    pub name: String,
    pub status: SessionStatus,
    pub waiting_for_input: bool,
}

/// Spec-level view of a [`CandidateSession`].
pub struct CandView {
    pub id: Seq<char>,
    pub name: Seq<char>,
    pub status: SessionStatus,
    pub waiting: bool,
}

impl View for CandidateSession {
    type V = CandView;

    open spec fn view(&self) -> CandView {
        CandView {
            id: self.id@,
            name: self.name@,
            status: self.status,
            waiting: self.waiting_for_input,
        }
    }
}

pub open spec fn cand_views(v: Seq<CandidateSession>) -> Seq<CandView> {
    v.map_values(|c: CandidateSession| c@)
}

/// Sessions grouped by normalized working directory: each entry a key and
/// the candidates filed under it.
pub struct SessionIndex {
    entries: Vec<(String, Vec<CandidateSession>)>,
}

/// An index entry: a key and the candidates filed under it.
pub type IndexView = Seq<(Seq<char>, Seq<CandView>)>;

/// Position of the entry for `k`, or -1 when there is none.
pub open spec fn find_entry(s: IndexView, k: Seq<char>) -> int
    decreases s.len(),
{
    if s.len() == 0 {
        -1
    } else if s.last().0 == k {
        s.len() - 1
    } else {
        find_entry(s.drop_last(), k)
    }
}

/// The entry found for a key is in range and holds that key; no entry holds
/// it when none is found.
pub proof fn lemma_find_entry(s: IndexView, k: Seq<char>)
    ensures
        -1 <= find_entry(s, k) < s.len(),
        find_entry(s, k) >= 0 ==> s[find_entry(s, k)].0 == k,
        find_entry(s, k) == -1 ==> forall|i: int| 0 <= i < s.len() ==> s[i].0 != k,
    decreases s.len(),
{
    if s.len() > 0 && s.last().0 != k {
        lemma_find_entry(s.drop_last(), k);
        if find_entry(s, k) == -1 {
            assert forall|i: int| 0 <= i < s.len() implies s[i].0 != k by {
                if i < s.len() - 1 {
                    assert(s[i] == s.drop_last()[i]);
                }
            }
        }
    }
}

/// The candidates filed under `k`.
pub open spec fn lookup(s: IndexView, k: Seq<char>) -> Option<Seq<CandView>> {
    let i = find_entry(s, k);
    if i >= 0 {
        Some(s[i].1)
    } else {
        None
    }
}

/// `s` with `c` filed under `k`: appended to the entry for `k`, or a new
/// entry at the end.
pub open spec fn file_under(s: IndexView, k: Seq<char>, c: CandView) -> IndexView {
    let i = find_entry(s, k);
    if i >= 0 {
        s.update(i, (k, s[i].1.push(c)))
    } else {
        s.push((k, seq![c]))
    }
}

impl View for SessionIndex {
    type V = IndexView;

    closed spec fn view(&self) -> IndexView {
        self.entries@.map_values(|e: (String, Vec<CandidateSession>)| (e.0@, cand_views(e.1@)))
    }
}

impl SessionIndex {
    /// An empty index.
    pub fn new() -> (r: Self)
        ensures
            r@ == Seq::<(Seq<char>, Seq<CandView>)>::empty(),
    {
        let r = SessionIndex { entries: Vec::new() };
        assert(r@ =~= Seq::<(Seq<char>, Seq<CandView>)>::empty());
        r
    }

    /// Position of the entry for `key`, searching from the end.
    fn position(&self, key: &str) -> (r: Option<usize>)
        ensures
            match r {
                Some(i) => i == find_entry(self@, key@) && i < self.entries@.len(),
                None => find_entry(self@, key@) == -1,
            },
    {
        let mut j: usize = self.entries.len();
        assert(self@.take(j as int) =~= self@);
        while j > 0
            invariant
                j <= self.entries@.len(),
                self@.len() == self.entries@.len(),
                find_entry(self@, key@) == find_entry(self@.take(j as int), key@),
            decreases j,
        {
            let ghost t = self@.take(j as int);
            if str_eq(self.entries[j - 1].0.as_str(), key) {
                assert(t.last() == self@[j - 1]);
                return Some(j - 1);
            }
            assert(t.drop_last() =~= self@.take(j - 1));
            j = j - 1;
        }
        None
    }

    /// The candidates filed under `key`.
    pub fn get(&self, key: &str) -> (r: Option<&Vec<CandidateSession>>)
        ensures
            match r {
                Some(b) => lookup(self@, key@) == Some(cand_views(b@)),
                None => lookup(self@, key@).is_none(),
            },
    {
        match self.position(key) {
            Some(i) => Some(&self.entries[i].1),
            None => None,
        }
    }

    /// Whether an entry for `key` exists.
    pub fn contains_key(&self, key: &str) -> (r: bool)
        ensures
            r == lookup(self@, key@).is_some(),
    {
        self.position(key).is_some()
    }

    /// Whether the index has no entry.
    pub fn is_empty(&self) -> (r: bool)
        ensures
            r == (self@.len() == 0),
    {
        self.entries.len() == 0
    }

    /// Replaces the entry for `key` with `bucket`, or adds it at the end.
    pub fn insert(&mut self, key: String, bucket: Vec<CandidateSession>)
        ensures
            final(self)@ == ({
                let i = find_entry(old(self)@, key@);
                if i >= 0 {
                    old(self)@.update(i, (key@, cand_views(bucket@)))
                } else {
                    old(self)@.push((key@, cand_views(bucket@)))
                }
            }),
    {
        let ghost prev = self@;
        let ghost entry = (key@, cand_views(bucket@));
        match self.position(key.as_str()) {
            Some(i) => {
                self.entries.set(i, (key, bucket));
                assert(self@ =~= prev.update(i as int, entry));
            },
            None => {
                self.entries.push((key, bucket));
                assert(self@ =~= prev.push(entry));
            },
        }
    }

    /// Files `c` under `key`.
    pub fn file(&mut self, key: String, c: CandidateSession)
        ensures
            final(self)@ == file_under(old(self)@, key@, c@),
    {
        let ghost prev = self@;
        let ghost cv = c@;
        match self.position(key.as_str()) {
            Some(i) => {
                let mut slot: (String, Vec<CandidateSession>) = (String::new(), Vec::new());
                self.entries.set_and_swap(i, &mut slot);
                let ghost old_bucket = slot.1@;
                assert(cand_views(old_bucket) == prev[i as int].1);
                let (_, mut bucket) = slot;
                bucket.push(c);
                assert(cand_views(bucket@) =~= cand_views(old_bucket).push(cv));
                self.entries.set(i, (key, bucket));
                proof {
                    lemma_find_entry(prev, key@);
                }
                assert(self@ =~= prev.update(i as int, (key@, prev[i as int].1.push(cv))));
            },
            None => {
                let mut bucket: Vec<CandidateSession> = Vec::new();
                bucket.push(c);
                assert(cand_views(bucket@) =~= seq![cv]);
                self.entries.push((key, bucket));
                assert(self@ =~= prev.push((key@, seq![cv])));
            },
        }
    }
}

// ---------------------------------------------------------------------------
// Path normalization.

/// The extended-length path prefix `\\?\`.
pub open spec fn ext_prefix() -> Seq<char> {
    seq!['\\', '\\', '?', '\\']
}

pub open spec fn strip_ext_prefix(s: Seq<char>) -> Seq<char> {
    if starts_with(s, ext_prefix()) {
        s.skip(4)
    } else {
        s
    }
}

/// Backslashes turned into forward slashes.
pub open spec fn forward_slashes(s: Seq<char>) -> Seq<char> {
    s.map_values(|c: char| if c == '\\' { '/' } else { c })
}

/// The comparison key of a path: extended-length prefix dropped, slashes
/// made forward, lower-cased, trailing slashes removed.
pub open spec fn norm_path_spec(p: Seq<char>) -> Seq<char> {
    trim_end_by(unicode_lowercase(forward_slashes(strip_ext_prefix(p))), |c: char| c == '/')
}

fn has_ext_prefix(v: &[char]) -> (r: bool)
    ensures
        r == starts_with(v@, ext_prefix()),
{
    if v.len() >= 4 && v[0] == '\\' && v[1] == '\\' && v[2] == '?' && v[3] == '\\' {
        assert(v@.subrange(0, 4) =~= ext_prefix());
        true
    } else {
        proof {
            if v@.len() >= 4 && ext_prefix().is_prefix_of(v@) {
                assert(v@.subrange(0, 4) == ext_prefix());
                assert(v@[0] == v@.subrange(0, 4)[0]);
                assert(v@[1] == v@.subrange(0, 4)[1]);
                assert(v@[2] == v@.subrange(0, 4)[2]);
                assert(v@[3] == v@.subrange(0, 4)[3]);
            }
        }
        false
    }
}

/// The comparison key of `path`.
pub fn norm_path(path: &str) -> (out: String)
    ensures
        out@ == norm_path_spec(path@),
{
    let v = chars_of(path);
    let start: usize = if has_ext_prefix(&v) { 4 } else { 0 };
    let ghost stripped = strip_ext_prefix(v@);
    assert(stripped =~= v@.skip(start as int));
    let mut fwd: Vec<char> = Vec::new();
    let mut i: usize = start;
    while i < v.len()
        invariant
            start <= i <= v@.len(),
            stripped == v@.skip(start as int),
            fwd@ == forward_slashes(stripped.take(i - start)),
        decreases v@.len() - i,
    {
        let c = v[i];
        let d = if c == '\\' { '/' } else { c };
        fwd.push(d);
        assert(stripped.take(i - start + 1) =~= stripped.take(i - start).push(c));
        assert(fwd@ =~= forward_slashes(stripped.take(i - start + 1)));
        i = i + 1;
    }
    assert(stripped.take(i - start) =~= stripped);
    let joined = string_of(&fwd);
    let lowered = to_lowercase(joined.as_str());
    let lv = chars_of(lowered.as_str());
    let trimmed = trim_end_char(&lv, '/');
    string_of(&trimmed)
}

/// The comparison key of a path, taken from its canonical form when the
/// file system gave one.
pub fn canon_or_norm(path: &str, canonical: Option<&str>) -> (out: String)
    ensures
        out@ == norm_path_spec(
            match canonical {
                Some(c) => c@,
                None => path@,
            },
        ),
{
    match canonical {
        Some(c) => norm_path(c),
        None => norm_path(path),
    }
}

// ---------------------------------------------------------------------------
// Working-state derivation.

/// A peer's working state as listed.
pub struct PeerStatus {
    pub working: bool,
    pub session_status: String,
    pub status_legacy: String,
    pub session_id: Option<String>,
    pub waiting_for_input: bool,
    pub exit_code: Option<i32>,
}

pub struct PeerStatusView {
    pub working: bool,
    pub session_status: Seq<char>,
    pub status_legacy: Seq<char>,
    pub session_id: Option<Seq<char>>,
    pub waiting_for_input: bool,
    pub exit_code: Option<i32>,
}

pub open spec fn opt_view(o: Option<String>) -> Option<Seq<char>> {
    match o {
        Some(s) => Some(s@),
        None => None,
    }
}

pub open spec fn opt_str_view(o: Option<&str>) -> Option<Seq<char>> {
    match o {
        Some(s) => Some(s@),
        None => None,
    }
}

impl View for PeerStatus {
    type V = PeerStatusView;

    open spec fn view(&self) -> PeerStatusView {
        PeerStatusView {
            working: self.working,
            session_status: self.session_status@,
            status_legacy: self.status_legacy@,
            session_id: opt_view(self.session_id),
            waiting_for_input: self.waiting_for_input,
            exit_code: self.exit_code,
        }
    }
}

/// The state of a peer that no session matches.
pub open spec fn no_status() -> PeerStatusView {
    PeerStatusView {
        working: false,
        session_status: "none"@,
        status_legacy: "unknown"@,
        session_id: None,
        waiting_for_input: false,
        exit_code: None,
    }
}

/// The state of a peer whose chosen session is `c`.
pub open spec fn status_for(c: CandView) -> PeerStatusView {
    let (status, legacy, working, exit_code) = if c.waiting {
        ("waiting"@, "unknown"@, false, None)
    } else {
        match c.status {
            SessionStatus::Active => ("active"@, "active"@, true, None),
            SessionStatus::Running => ("running"@, "active"@, true, None),
            SessionStatus::Idle => ("idle"@, "unknown"@, false, None),
            SessionStatus::Exited(n) => ("exited"@, "unknown"@, false, Some(n)),
        }
    };
    PeerStatusView {
        working,
        session_status: status,
        status_legacy: legacy,
        session_id: Some(c.id),
        waiting_for_input: c.waiting,
        exit_code,
    }
}

/// Waiting beats active, active beats running, running beats idle, idle
/// beats exited.
pub open spec fn priority_of(c: CandView) -> int {
    if c.waiting {
        4
    } else {
        match c.status {
            SessionStatus::Active => 3,
            SessionStatus::Running => 2,
            SessionStatus::Idle => 1,
            SessionStatus::Exited(_) => 0,
        }
    }
}

/// A session counts for a peer when the peer expects no name, or when the
/// session carries the expected name.
pub open spec fn eligible(c: CandView, expected: Option<Seq<char>>) -> bool {
    match expected {
        Some(n) => c.name == n,
        None => true,
    }
}

/// Index of the chosen session: among the eligible ones, the last of highest
/// priority; -1 when none is eligible.
pub open spec fn best_candidate(cs: Seq<CandView>, expected: Option<Seq<char>>) -> int
    decreases cs.len(),
{
    if cs.len() == 0 {
        -1
    } else {
        let b = best_candidate(cs.drop_last(), expected);
        let i = cs.len() - 1;
        if eligible(cs[i], expected) && (b < 0 || priority_of(cs[i]) >= priority_of(cs[b])) {
            i
        } else {
            b
        }
    }
}

/// The chosen session is eligible and of the highest priority among the
/// eligible ones, the last of them on ties (every later eligible session
/// ranks lower); none is chosen only when none is eligible.
pub proof fn lemma_best_candidate(cs: Seq<CandView>, expected: Option<Seq<char>>)
    ensures
        best_candidate(cs, expected) >= 0 ==> forall|i: int|
            best_candidate(cs, expected) < i < cs.len() && eligible(#[trigger] cs[i], expected)
                ==> priority_of(cs[i]) < priority_of(cs[best_candidate(cs, expected)]),
        -1 <= best_candidate(cs, expected) < cs.len(),
        best_candidate(cs, expected) >= 0 ==> eligible(cs[best_candidate(cs, expected)], expected),
        best_candidate(cs, expected) < 0 ==> forall|i: int|
            0 <= i < cs.len() ==> !eligible(#[trigger] cs[i], expected),
        best_candidate(cs, expected) >= 0 ==> forall|i: int|
            0 <= i < cs.len() && eligible(#[trigger] cs[i], expected) ==> priority_of(cs[i])
                <= priority_of(cs[best_candidate(cs, expected)]),
    decreases cs.len(),
{
    if cs.len() > 0 {
        let d = cs.drop_last();
        lemma_best_candidate(d, expected);
        let last = cs.len() - 1;
        let b = best_candidate(cs, expected);
        let bd = best_candidate(d, expected);
        assert forall|i: int| 0 <= i < last implies cs[i] == #[trigger] d[i] by {}
        if b < 0 {
            assert forall|i: int| 0 <= i < cs.len() implies !eligible(#[trigger] cs[i], expected) by {
                if i < last {
                    assert(cs[i] == d[i]);
                }
            }
        } else {
            assert forall|i: int|
                0 <= i < cs.len() && eligible(#[trigger] cs[i], expected) implies priority_of(cs[i])
                <= priority_of(cs[b]) by {
                if i < last {
                    assert(cs[i] == d[i]);
                    assert(bd >= 0);
                    assert(cs[bd] == d[bd]);
                }
            }
            assert forall|i: int| b < i < cs.len() && eligible(#[trigger] cs[i], expected) implies priority_of(
                cs[i],
            ) < priority_of(cs[b]) by {
                assert(b != last);
                assert(b == bd);
                assert(cs[bd] == d[bd]);
                if i < last {
                    assert(cs[i] == d[i]);
                }
            }
        }
    }
}

/// The working state of the peer whose directory has key `key`.
pub open spec fn peer_status_spec(
    key: Seq<char>,
    expected: Option<Seq<char>>,
    index: IndexView,
) -> PeerStatusView {
    match lookup(index, key) {
        None => no_status(),
        Some(cs) => {
            let b = best_candidate(cs, expected);
            if b < 0 {
                no_status()
            } else {
                status_for(cs[b])
            }
        },
    }
}

impl PeerStatus {
    /// The state of a peer that no session matches.
    pub fn none() -> (r: Self)
        ensures
            r@ == no_status(),
    {
        PeerStatus {
            working: false,
            session_status: owned("none"),
            status_legacy: owned("unknown"),
            session_id: None,
            waiting_for_input: false,
            exit_code: None,
        }
    }
}

/// Priority of a candidate session.
pub fn priority(c: &CandidateSession) -> (r: u8)
    ensures
        r == priority_of(c@),
{
    if c.waiting_for_input {
        return 4;
    }
    match c.status {
        SessionStatus::Active => 3,
        SessionStatus::Running => 2,
        SessionStatus::Idle => 1,
        SessionStatus::Exited(_) => 0,
    }
}

fn status_of_chosen(c: &CandidateSession) -> (r: PeerStatus)
    ensures
        r@ == status_for(c@),
{
    let (status, legacy, working, exit_code): (&str, &str, bool, Option<i32>) =
        if c.waiting_for_input {
        ("waiting", "unknown", false, None)
    } else {
        match c.status {
            SessionStatus::Active => ("active", "active", true, None),
            SessionStatus::Running => ("running", "active", true, None),
            SessionStatus::Idle => ("idle", "unknown", false, None),
            SessionStatus::Exited(n) => ("exited", "unknown", false, Some(n)),
        }
    };
    PeerStatus {
        working,
        session_status: owned(status),
        status_legacy: owned(legacy),
        session_id: Some(c.id.clone()),
        waiting_for_input: c.waiting_for_input,
        exit_code,
    }
}

/// The working state of the peer at `peer_path` (its canonical form, where
/// the file system gave one). `expected_name` is the session name that a
/// workgroup peer's session carries; other peers match by directory only.
pub fn compute_peer_status(
    peer_path: &str,
    expected_name: Option<&str>,
    index: &SessionIndex,
) -> (r: PeerStatus)
    ensures
        r@ == peer_status_spec(norm_path_spec(peer_path@), opt_str_view(expected_name), index@),
{
    let key = norm_path(peer_path);
    let ghost expected = opt_str_view(expected_name);
    let candidates = match index.get(key.as_str()) {
        Some(b) => b,
        None => {
            return PeerStatus::none();
        },
    };
    let ghost cs = cand_views(candidates@);
    let mut best: Option<usize> = None;
    let mut i: usize = 0;
    while i < candidates.len()
        invariant
            i <= candidates@.len(),
            cs == cand_views(candidates@),
            expected == opt_str_view(expected_name),
            match best {
                Some(b) => b < i && b as int == best_candidate(cs.take(i as int), expected),
                None => best_candidate(cs.take(i as int), expected) == -1,
            },
        decreases candidates@.len() - i,
    {
        let c = &candidates[i];
        let ok = match expected_name {
            Some(n) => str_eq(c.name.as_str(), n),
            None => true,
        };
        let ghost t = cs.take(i + 1);
        assert(t.drop_last() =~= cs.take(i as int));
        assert(t[i as int] == c@);
        if ok {
            match best {
                Some(b) => {
                    assert(t[b as int] == cs[b as int]);
                    if priority(c) >= priority(&candidates[b]) {
                        best = Some(i);
                    }
                },
                None => {
                    best = Some(i);
                },
            }
        }
        i = i + 1;
    }
    assert(cs.take(i as int) =~= cs);
    match best {
        Some(b) => status_of_chosen(&candidates[b]),
        None => PeerStatus::none(),
    }
}

// ---------------------------------------------------------------------------
// The session index.

/// Spec-level view of a [`PersistedSession`].
pub struct PersistedView {
    pub name: Seq<char>,
    pub working_directory: Seq<char>,
    pub id: Option<Seq<char>>,
    pub status: Option<SessionStatus>,
    pub waiting: Option<bool>,
}

impl View for PersistedSession {
    type V = PersistedView;

    open spec fn view(&self) -> PersistedView {
        PersistedView {
            name: self.name@,
            working_directory: self.working_directory@,
            id: opt_view(self.id),
            status: self.status,
            waiting: self.waiting_for_input,
        }
    }
}

pub open spec fn row_views(rows: Seq<PersistedSession>) -> Seq<PersistedView> {
    rows.map_values(|r: PersistedSession| r@)
}

/// Name prefix of throw-away sessions, which peer listing ignores.
pub open spec fn temp_prefix() -> Seq<char> {
    "[temp]"@
}

/// A row takes part in the index: not a throw-away session, with an id and a
/// status.
pub open spec fn indexed(r: PersistedView) -> bool {
    !starts_with(r.name, temp_prefix()) && r.id.is_some() && r.status.is_some()
}

pub open spec fn candidate_of(r: PersistedView) -> CandView {
    CandView {
        id: r.id.unwrap(),
        name: r.name,
        status: r.status.unwrap(),
        waiting: match r.waiting {
            Some(w) => w,
            None => false,
        },
    }
}

/// The index built from `rows`: each indexed row filed, in order, under the
/// key of its working directory.
pub open spec fn index_spec(rows: Seq<PersistedView>) -> IndexView
    decreases rows.len(),
{
    if rows.len() == 0 {
        Seq::empty()
    } else {
        let prev = index_spec(rows.drop_last());
        let r = rows.last();
        if indexed(r) {
            file_under(prev, norm_path_spec(r.working_directory), candidate_of(r))
        } else {
            prev
        }
    }
}

/// The index of `rows`, keyed by the working directory of each row (its
/// canonical form, where the caller could obtain one).
pub fn build_session_index_from(rows: &[PersistedSession]) -> (idx: SessionIndex)
    ensures
        idx@ == index_spec(row_views(rows@)),
{
    let mut index = SessionIndex::new();
    let ghost rv = row_views(rows@);
    let mut i: usize = 0;
    while i < rows.len()
        invariant
            i <= rows@.len(),
            rv == row_views(rows@),
            index@ == index_spec(rv.take(i as int)),
        decreases rows@.len() - i,
    {
        let ps = &rows[i];
        let ghost t = rv.take(i + 1);
        assert(t.drop_last() =~= rv.take(i as int));
        assert(t.last() == ps@);
        let temp = {
            let name = chars_of(ps.name.as_str());
            starts_with_str(&name, "[temp]")
        };
        if !temp {
            match (&ps.id, &ps.status) {
                (Some(id), Some(status)) => {
                    let key = norm_path(ps.working_directory.as_str());
                    let waiting = match ps.waiting_for_input {
                        Some(w) => w,
                        None => false,
                    };
                    let c = CandidateSession {
                        id: id.clone(),
                        name: ps.name.clone(),
                        status: *status,
                        waiting_for_input: waiting,
                    };
                    index.file(key, c);
                },
                _ => {},
            }
        }
        i = i + 1;
    }
    assert(rv.take(i as int) =~= rv);
    index
}

// ---------------------------------------------------------------------------
// Role text.

/// The first line of `ls` that is not blank once trimmed, trimmed; empty when
/// every line is blank.
pub open spec fn first_nonempty_line(ls: Seq<Seq<char>>) -> Seq<char>
    decreases ls.len(),
{
    if ls.len() == 0 {
        Seq::empty()
    } else if trim_ws(ls[0]).len() > 0 {
        trim_ws(ls[0])
    } else {
        first_nonempty_line(ls.drop_first())
    }
}

/// Lines that carry no role hint: blank, a "no role" placeholder, or the
/// opening of the standard session preamble.
pub open spec fn uninformative(l: Seq<char>) -> bool {
    ||| l.len() == 0
    ||| l == "No role description available."@
    ||| l == "WG replica agent."@
    ||| starts_with(l, "You are running inside an AgentsCommander session"@)
    ||| starts_with(l, "# AgentsCommander Context"@)
}

/// The one-line role summary of `role`: its first non-blank line, empty when
/// that line is uninformative, cut to `ROLE_SUMMARY_MAX - 1` chars plus an
/// ellipsis when longer than `ROLE_SUMMARY_MAX`.
pub open spec fn role_summary_spec(role: Seq<char>) -> Seq<char> {
    let l = first_nonempty_line(lines(role));
    if uninformative(l) {
        Seq::empty()
    } else if l.len() <= ROLE_SUMMARY_MAX {
        l
    } else {
        l.take(ROLE_SUMMARY_MAX - 1).push('\u{2026}')
    }
}

/// The first non-blank line of `ls`, trimmed.
fn first_nonempty(ls: &Vec<Vec<char>>) -> (out: Vec<char>)
    ensures
        out@ == first_nonempty_line(char_views(ls@)),
{
    let ghost lv = char_views(ls@);
    let mut i: usize = 0;
    assert(lv.skip(0) =~= lv);
    while i < ls.len()
        invariant
            i <= ls@.len(),
            lv == char_views(ls@),
            first_nonempty_line(lv) == first_nonempty_line(lv.skip(i as int)),
        decreases ls@.len() - i,
    {
        let t = trim(&ls[i]);
        assert(lv.skip(i as int)[0] == ls@[i as int]@);
        if t.len() > 0 {
            return t;
        }
        assert(lv.skip(i as int).drop_first() =~= lv.skip(i + 1));
        i = i + 1;
    }
    Vec::new()
}

proof fn lemma_first_line_one_line(ls: Seq<Seq<char>>)
    requires
        forall|i: int| 0 <= i < ls.len() ==> !(#[trigger] ls[i]).contains('\n'),
    ensures
        !first_nonempty_line(ls).contains('\n'),
    decreases ls.len(),
{
    if ls.len() > 0 {
        if trim_ws(ls[0]).len() > 0 {
            crate::text::lemma_trim_keeps_absent(ls[0], crate::text::ws_pred(), '\n');
        } else {
            assert forall|i: int| 0 <= i < ls.drop_first().len() implies !(#[trigger] ls.drop_first()[i]).contains(
                '\n',
            ) by {
                assert(ls.drop_first()[i] == ls[i + 1]);
            }
            lemma_first_line_one_line(ls.drop_first());
        }
    }
}

/// A role summary is one line: it holds no line feed.
pub proof fn lemma_role_summary_one_line(role: Seq<char>)
    ensures
        !role_summary_spec(role).contains('\n'),
{
    crate::text::lemma_lines_have_no_newline(role);
    let l = first_nonempty_line(lines(role));
    lemma_first_line_one_line(lines(role));
    if !uninformative(l) && l.len() > ROLE_SUMMARY_MAX {
        let t = l.take(ROLE_SUMMARY_MAX - 1).push('\u{2026}');
        assert forall|j: int| 0 <= j < t.len() implies t[j] != '\n' by {
            if j < ROLE_SUMMARY_MAX - 1 {
                assert(t[j] == l[j]);
            }
        }
    }
}

/// The one-line role summary of `role` (see [`role_summary_spec`]).
pub fn lean_role_summary(role: &str) -> (out: String)
    ensures
        out@ == role_summary_spec(role@),
        out@.len() <= ROLE_SUMMARY_MAX,
        !out@.contains('\n'),
{
    proof {
        lemma_role_summary_one_line(role@);
    }
    let v = chars_of(role);
    let ls = lines_of(&v);
    let line = first_nonempty(&ls);
    let ghost l = line@;
    if line.len() == 0 || eq_chars_str(&line, "No role description available.") || eq_chars_str(
        &line,
        "WG replica agent.",
    ) || starts_with_str(&line, "You are running inside an AgentsCommander session")
        || starts_with_str(&line, "# AgentsCommander Context") {
        return String::new();
    }
    if line.len() <= ROLE_SUMMARY_MAX {
        return string_of(&line);
    }
    let mut cut: Vec<char> = Vec::new();
    let mut i: usize = 0;
    while i < ROLE_SUMMARY_MAX - 1
        invariant
            i <= ROLE_SUMMARY_MAX - 1,
            line@.len() > ROLE_SUMMARY_MAX,
            cut@ == line@.take(i as int),
        decreases ROLE_SUMMARY_MAX - 1 - i,
    {
        cut.push(line[i]);
        assert(line@.take(i + 1) =~= line@.take(i as int).push(line@[i as int]));
        i = i + 1;
    }
    cut.push('\u{2026}');
    string_of(&cut)
}

fn eq_chars_str(v: &[char], lit: &str) -> (r: bool)
    ensures
        r == (v@ == lit@),
{
    let l = chars_of(lit);
    seq_eq(v, &l)
}

/// Heading that opens a role section.
pub open spec fn role_heading() -> Seq<char> {
    "## Role"@
}

/// A line that closes a role section: another second-level heading or a
/// rule.
pub open spec fn closes_role(l: Seq<char>) -> bool {
    starts_with(l, "## "@) || starts_with(l, "---"@)
}

/// The non-blank trimmed lines of the role section(s) met in `ls`, starting
/// inside a section when `in_role` holds. A role heading (re)opens a section;
/// inside one, a closing line ends the scan.
pub open spec fn role_lines(ls: Seq<Seq<char>>, in_role: bool) -> Seq<Seq<char>>
    decreases ls.len(),
{
    if ls.len() == 0 {
        Seq::empty()
    } else {
        let l = ls[0];
        let rest = ls.drop_first();
        if starts_with(l, role_heading()) {
            role_lines(rest, true)
        } else if in_role && closes_role(l) {
            Seq::empty()
        } else if in_role {
            let t = trim_ws(l);
            if t.len() > 0 {
                seq![t] + role_lines(rest, true)
            } else {
                role_lines(rest, true)
            }
        } else {
            role_lines(rest, false)
        }
    }
}

/// Trimmed lines of `ls` that are neither blank nor headings.
pub open spec fn plain_lines(ls: Seq<Seq<char>>) -> Seq<Seq<char>>
    decreases ls.len(),
{
    if ls.len() == 0 {
        Seq::empty()
    } else {
        let prev = plain_lines(ls.drop_last());
        let t = trim_ws(ls.last());
        if t.len() > 0 && !starts_with(t, "#"@) {
            prev.push(t)
        } else {
            prev
        }
    }
}

pub open spec fn first_n(s: Seq<Seq<char>>, n: int) -> Seq<Seq<char>> {
    if s.len() <= n {
        s
    } else {
        s.take(n)
    }
}

/// The role description of a markdown document: up to three lines of its
/// role section, joined by spaces; without one, up to `fallback` plain lines;
/// without those, `default_msg`.
pub open spec fn role_section_spec(content: Seq<char>, fallback: nat, default_msg: Seq<char>) -> Seq<
    char,
> {
    let ls = lines(content);
    let rl = role_lines(ls, false);
    if rl.len() > 0 {
        join(first_n(rl, 3), " "@)
    } else {
        let fb = first_n(plain_lines(ls), fallback as int);
        if fb.len() == 0 {
            default_msg
        } else {
            join(fb, " "@)
        }
    }
}

proof fn lemma_role_lines_step(ls: Seq<Seq<char>>, i: int, in_role: bool)
    requires
        0 <= i < ls.len(),
    ensures
        ls.skip(i)[0] == ls[i],
        ls.skip(i).drop_first() == ls.skip(i + 1),
{
    assert(ls.skip(i).drop_first() =~= ls.skip(i + 1));
}

fn first_n_vec(v: &Vec<Vec<char>>, n: usize) -> (out: Vec<Vec<char>>)
    ensures
        char_views(out@) == first_n(char_views(v@), n as int),
{
    let mut out: Vec<Vec<char>> = Vec::new();
    let mut i: usize = 0;
    while i < v.len() && i < n
        invariant
            i <= v@.len(),
            i <= n,
            char_views(out@) == char_views(v@).take(i as int),
        decreases v@.len() - i,
    {
        let item = crate::text::copy_chars(&v[i]);
        let ghost prev = out@;
        let ghost iv = item@;
        out.push(item);
        assert(char_views(out@) =~= char_views(prev).push(iv));
        assert(char_views(v@).take(i + 1) =~= char_views(v@).take(i as int).push(iv));
        i = i + 1;
    }
    assert(char_views(v@).take(v@.len() as int) =~= char_views(v@));
    out
}

/// The role description of a markdown document (see [`role_section_spec`]).
pub fn extract_role_section(content: &str, fallback_lines: usize, default_msg: &str) -> (out: String)
    ensures
        out@ == role_section_spec(content@, fallback_lines as nat, default_msg@),
{
    let v = chars_of(content);
    let ls = lines_of(&v);
    let ghost lv = char_views(ls@);
    let mut in_role = false;
    let mut found: Vec<Vec<char>> = Vec::new();
    let mut i: usize = 0;
    assert(lv.skip(0) =~= lv);
    assert(char_views(found@) + role_lines(lv.skip(0), false) =~= role_lines(lv, false));
    while i < ls.len()
        invariant
            i <= ls@.len(),
            lv == char_views(ls@),
            role_lines(lv, false) == char_views(found@) + role_lines(lv.skip(i as int), in_role),
        ensures
            role_lines(lv, false) == char_views(found@),
        decreases ls@.len() - i,
    {
        let line = &ls[i];
        proof {
            lemma_role_lines_step(lv, i as int, in_role);
        }
        let ghost rest = lv.skip(i + 1);
        if starts_with_str(line, "## Role") {
            in_role = true;
        } else if in_role {
            if starts_with_str(line, "## ") || starts_with_str(line, "---") {
                assert(role_lines(lv.skip(i as int), true) =~= Seq::<Seq<char>>::empty());
                assert(char_views(found@) + Seq::<Seq<char>>::empty() =~= char_views(found@));
                break;
            }
            let t = trim(line);
            if t.len() > 0 {
                let ghost before = char_views(found@);
                let ghost tv = t@;
                found.push(t);
                assert(char_views(found@) =~= before.push(tv));
                assert(before + (seq![tv] + role_lines(rest, true)) =~= before.push(tv) + role_lines(
                    rest,
                    true,
                ));
            }
        }
        i = i + 1;
        proof {
            if i == ls@.len() {
                assert(role_lines(lv.skip(i as int), in_role) =~= Seq::<Seq<char>>::empty());
                assert(char_views(found@) + Seq::<Seq<char>>::empty() =~= char_views(found@));
            }
        }
    }
    let space = chars_of(" ");
    if found.len() > 0 {
        let top = first_n_vec(&found, 3);
        let joined = join_chars(&top, &space);
        return string_of(&joined);
    }
    let mut plain: Vec<Vec<char>> = Vec::new();
    let mut k: usize = 0;
    while k < ls.len()
        invariant
            k <= ls@.len(),
            lv == char_views(ls@),
            char_views(plain@) == plain_lines(lv.take(k as int)),
        decreases ls@.len() - k,
    {
        let t = trim(&ls[k]);
        let ghost tk = lv.take(k + 1);
        assert(tk.drop_last() =~= lv.take(k as int));
        assert(tk.last() == ls@[k as int]@);
        if t.len() > 0 && !starts_with_str(&t, "#") {
            let ghost before = char_views(plain@);
            let ghost tv = t@;
            plain.push(t);
            assert(char_views(plain@) =~= before.push(tv));
        }
        k = k + 1;
    }
    assert(lv.take(k as int) =~= lv);
    let fb = first_n_vec(&plain, fallback_lines);
    if fb.len() == 0 {
        owned(default_msg)
    } else {
        let joined = join_chars(&fb, &space);
        string_of(&joined)
    }
}

// ---------------------------------------------------------------------------
// Peers and their lean projection.

/// A listed peer.
#[derive(Debug)]
pub struct PeerInfo {
    pub name: String,
    pub path: String,
    /// "active" when the peer is working, "unknown" otherwise.
    pub status: String,
    pub role: String,
    pub teams: Vec<String>,
    pub reachable: bool,
    pub last_coding_agent: Option<String>,
    pub working: bool,
    pub session_status: String,
    pub session_id: Option<String>,
    pub waiting_for_input: bool,
    pub exit_code: Option<i32>,
}

pub struct PeerView {
    pub name: Seq<char>,
    pub path: Seq<char>,
    pub status: Seq<char>,
    pub role: Seq<char>,
    pub teams: Seq<Seq<char>>,
    pub reachable: bool,
    pub last_coding_agent: Option<Seq<char>>,
    pub working: bool,
    pub session_status: Seq<char>,
    pub session_id: Option<Seq<char>>,
    pub waiting_for_input: bool,
    pub exit_code: Option<i32>,
}

impl View for PeerInfo {
    type V = PeerView;

    open spec fn view(&self) -> PeerView {
        PeerView {
            name: self.name@,
            path: self.path@,
            status: self.status@,
            role: self.role@,
            teams: views(self.teams@),
            reachable: self.reachable,
            last_coding_agent: opt_view(self.last_coding_agent),
            working: self.working,
            session_status: self.session_status@,
            session_id: opt_view(self.session_id),
            waiting_for_input: self.waiting_for_input,
            exit_code: self.exit_code,
        }
    }
}

pub open spec fn peer_views(v: Seq<PeerInfo>) -> Seq<PeerView> {
    v.map_values(|p: PeerInfo| p@)
}

/// The compact form of a listed peer.
#[derive(Debug)]
pub struct LeanPeerInfo {
    pub name: String,
    pub working: bool,
    pub session_status: String,
    pub waiting_for_input: bool,
    pub reachable: bool,
    pub teams: Vec<String>,
    /// Empty when the peer's role carries no hint.
    pub role_summary: String,
}

impl LeanPeerInfo {
    /// The compact form of `p`: its name, working state, reachability and
    /// teams unchanged, and the one-line summary of its role.
    pub fn from(p: &PeerInfo) -> (r: Self)
        ensures
            r.name@ == p.name@,
            r.working == p.working,
            r.session_status@ == p.session_status@,
            r.waiting_for_input == p.waiting_for_input,
            r.reachable == p.reachable,
            views(r.teams@) == views(p.teams@),
            r.role_summary@ == role_summary_spec(p.role@),
    {
        LeanPeerInfo {
            name: p.name.clone(),
            working: p.working,
            session_status: p.session_status.clone(),
            waiting_for_input: p.waiting_for_input,
            reachable: p.reachable,
            teams: crate::text::clone_strings(&p.teams),
            role_summary: lean_role_summary(p.role.as_str()),
        }
    }
}

// ---------------------------------------------------------------------------
// The --peer filter.

/// `s` without repeats, each entry kept at its first occurrence.
pub open spec fn dedup(s: Seq<Seq<char>>) -> Seq<Seq<char>>
    decreases s.len(),
{
    if s.len() == 0 {
        s
    } else {
        let p = dedup(s.drop_last());
        if p.contains(s.last()) {
            p
        } else {
            p.push(s.last())
        }
    }
}

/// Position of the last peer named `n`, or -1.
pub open spec fn last_named(ps: Seq<PeerView>, n: Seq<char>) -> int
    decreases ps.len(),
{
    if ps.len() == 0 {
        -1
    } else if ps.last().name == n {
        ps.len() - 1
    } else {
        last_named(ps.drop_last(), n)
    }
}

/// The names of `u` that no peer carries, in order.
pub open spec fn unknown_names(u: Seq<Seq<char>>, ps: Seq<PeerView>) -> Seq<Seq<char>>
    decreases u.len(),
{
    if u.len() == 0 {
        u
    } else {
        let p = unknown_names(u.drop_last(), ps);
        if last_named(ps, u.last()) < 0 {
            p.push(u.last())
        } else {
            p
        }
    }
}

/// The `--peer` filter: no request keeps `ps` as it is; otherwise the
/// requested names, without repeats, in the order asked, each replaced by the
/// peer of that name, or the unknown names when any name matches no peer.
pub open spec fn peer_filter_spec(ps: Seq<PeerView>, req: Seq<Seq<char>>) -> Result<
    Seq<PeerView>,
    Seq<Seq<char>>,
> {
    if req.len() == 0 {
        Ok(ps)
    } else {
        let u = dedup(req);
        let unk = unknown_names(u, ps);
        if unk.len() > 0 {
            Err(unk)
        } else {
            Ok(Seq::new(u.len(), |k: int| ps[last_named(ps, u[k])]))
        }
    }
}

/// The last peer with a name is the one found, and no later peer has it;
/// none is found only when no peer has it.
pub proof fn lemma_last_named(ps: Seq<PeerView>, n: Seq<char>)
    ensures
        -1 <= last_named(ps, n) < ps.len(),
        last_named(ps, n) >= 0 ==> ps[last_named(ps, n)].name == n,
        last_named(ps, n) < 0 <==> forall|i: int| 0 <= i < ps.len() ==> ps[i].name != n,
        forall|i: int| last_named(ps, n) < i < ps.len() ==> ps[i].name != n,
    decreases ps.len(),
{
    if ps.len() > 0 {
        let d = ps.drop_last();
        lemma_last_named(d, n);
        assert forall|i: int| 0 <= i < ps.len() - 1 implies ps[i] == #[trigger] d[i] by {}
        if last_named(ps, n) < 0 {
            assert forall|i: int| 0 <= i < ps.len() implies ps[i].name != n by {
                if i < ps.len() - 1 {
                    assert(ps[i] == d[i]);
                }
            }
        }
        assert forall|i: int| last_named(ps, n) < i < ps.len() implies ps[i].name != n by {
            if i < ps.len() - 1 {
                assert(ps[i] == d[i]);
            }
        }
    }
}

/// Removing repeats keeps each name once and loses none.
pub proof fn lemma_dedup(s: Seq<Seq<char>>)
    ensures
        forall|a: int, b: int| 0 <= a < b < dedup(s).len() ==> dedup(s)[a] != dedup(s)[b],
        forall|x: Seq<char>| dedup(s).contains(x) <==> s.contains(x),
    decreases s.len(),
{
    if s.len() > 0 {
        let d = s.drop_last();
        lemma_dedup(d);
        let p = dedup(d);
        assert forall|x: Seq<char>| dedup(s).contains(x) implies s.contains(x) by {
            let k = choose|k: int| 0 <= k < dedup(s).len() && dedup(s)[k] == x;
            if k < p.len() {
                assert(p[k] == x);
                assert(p.contains(x));
                assert(d.contains(x));
                let j = choose|j: int| 0 <= j < d.len() && d[j] == x;
                assert(s[j] == d[j]);
            } else {
                assert(s[s.len() - 1] == x);
            }
        }
        assert forall|x: Seq<char>| s.contains(x) implies dedup(s).contains(x) by {
            let j = choose|j: int| 0 <= j < s.len() && s[j] == x;
            if j < s.len() - 1 {
                assert(d[j] == x);
                assert(d.contains(x));
                assert(p.contains(x));
                let k = choose|k: int| 0 <= k < p.len() && p[k] == x;
                if !p.contains(s.last()) {
                    assert(dedup(s)[k] == x);
                }
            } else {
                if !p.contains(s.last()) {
                    assert(dedup(s)[p.len() as int] == x);
                }
            }
        }
    }
}

pub(crate) fn contains_string(v: &Vec<String>, n: &str) -> (r: bool)
    ensures
        r == views(v@).contains(n@),
{
    let mut i: usize = 0;
    while i < v.len()
        invariant
            i <= v@.len(),
            forall|k: int| 0 <= k < i ==> views(v@)[k] != n@,
        decreases v@.len() - i,
    {
        if str_eq(v[i].as_str(), n) {
            assert(views(v@)[i as int] == n@);
            return true;
        }
        i = i + 1;
    }
    false
}

/// Position of the last peer of `peers` named `n`.
fn last_named_exec(peers: &Vec<PeerInfo>, n: &str) -> (r: Option<usize>)
    ensures
        match r {
            Some(j) => j < peers@.len() && j as int == last_named(peer_views(peers@), n@),
            None => last_named(peer_views(peers@), n@) == -1,
        },
{
    let ghost pv = peer_views(peers@);
    let mut j: usize = peers.len();
    assert(pv.take(j as int) =~= pv);
    while j > 0
        invariant
            j <= peers@.len(),
            pv == peer_views(peers@),
            last_named(pv, n@) == last_named(pv.take(j as int), n@),
        decreases j,
    {
        let ghost t = pv.take(j as int);
        assert(t.last() == peers@[j - 1]@);
        if str_eq(peers[j - 1].name.as_str(), n) {
            return Some(j - 1);
        }
        assert(t.drop_last() =~= pv.take(j - 1));
        j = j - 1;
    }
    None
}

/// The `--peer` filter (see [`peer_filter_spec`]).
pub fn apply_peer_filter(peers: Vec<PeerInfo>, requested: &[String]) -> (r: Result<
    Vec<PeerInfo>,
    Vec<String>,
>)
    ensures
        match r {
            Ok(v) => peer_filter_spec(peer_views(peers@), views(requested@)) == Ok::<
                Seq<PeerView>,
                Seq<Seq<char>>,
            >(peer_views(v@)),
            Err(e) => peer_filter_spec(peer_views(peers@), views(requested@)) == Err::<
                Seq<PeerView>,
                Seq<Seq<char>>,
            >(views(e@)),
        },
{
    if requested.len() == 0 {
        return Ok(peers);
    }
    let ghost rv = views(requested@);
    let ghost pv = peer_views(peers@);
    let mut unique: Vec<String> = Vec::new();
    let mut i: usize = 0;
    while i < requested.len()
        invariant
            i <= requested@.len(),
            rv == views(requested@),
            views(unique@) == dedup(rv.take(i as int)),
        decreases requested@.len() - i,
    {
        let ghost t = rv.take(i + 1);
        assert(t.drop_last() =~= rv.take(i as int));
        assert(t.last() == requested@[i as int]@);
        if !contains_string(&unique, requested[i].as_str()) {
            let ghost before = views(unique@);
            let c = requested[i].clone();
            unique.push(c);
            assert(views(unique@) =~= before.push(requested@[i as int]@));
        }
        i = i + 1;
    }
    assert(rv.take(i as int) =~= rv);
    let ghost u = views(unique@);
    proof {
        lemma_dedup(rv);
    }
    let mut unknown: Vec<String> = Vec::new();
    let mut targets: Vec<usize> = Vec::new();
    let mut k: usize = 0;
    while k < unique.len()
        invariant
            k <= unique@.len(),
            u == views(unique@),
            pv == peer_views(peers@),
            views(unknown@) == unknown_names(u.take(k as int), pv),
            unknown@.len() == 0 ==> targets@.len() == k,
            unknown@.len() == 0 ==> forall|m: int|
                0 <= m < k ==> #[trigger] targets@[m] as int == last_named(pv, u[m]) && targets@[m]
                    < pv.len(),
        decreases unique@.len() - k,
    {
        let ghost t = u.take(k + 1);
        assert(t.drop_last() =~= u.take(k as int));
        assert(t.last() == unique@[k as int]@);
        match last_named_exec(&peers, unique[k].as_str()) {
            Some(j) => {
                targets.push(j);
            },
            None => {
                let ghost before = views(unknown@);
                let c = unique[k].clone();
                unknown.push(c);
                assert(views(unknown@) =~= before.push(unique@[k as int]@));
            },
        }
        k = k + 1;
    }
    assert(u.take(k as int) =~= u);
    if unknown.len() > 0 {
        return Err(unknown);
    }
    proof {
        assert forall|a: int, b: int|
            0 <= a < b < targets@.len() implies targets@[a] != targets@[b] by {
            lemma_last_named(pv, u[a]);
            lemma_last_named(pv, u[b]);
            assert(targets@[a] as int == last_named(pv, u[a]));
            assert(targets@[b] as int == last_named(pv, u[b]));
        }
    }
    let mut slots: Vec<Option<PeerInfo>> = Vec::new();
    let n = peers.len();
    for p in it: peers.into_iter()
        invariant
            it.seq() == peers@,
            slots@.len() == it.index(),
            forall|m: int| 0 <= m < slots@.len() ==> #[trigger] slots@[m] == Some(peers@[m]),
    {
        slots.push(Some(p));
    }
    let mut out: Vec<PeerInfo> = Vec::new();
    let mut m: usize = 0;
    while m < targets.len()
        invariant
            m <= targets@.len(),
            targets@.len() == u.len(),
            slots@.len() == pv.len(),
            pv == peer_views(peers@),
            forall|a: int, b: int| 0 <= a < b < targets@.len() ==> targets@[a] != targets@[b],
            forall|q: int|
                0 <= q < u.len() ==> #[trigger] targets@[q] as int == last_named(pv, u[q])
                    && targets@[q] < pv.len(),
            forall|q: int|
                m <= q < targets@.len() ==> #[trigger] slots@[targets@[q] as int] == Some(
                    peers@[targets@[q] as int],
                ),
            peer_views(out@) == Seq::new(m as nat, |q: int| pv[last_named(pv, u[q])]),
        decreases targets@.len() - m,
    {
        let j = targets[m];
        let mut taken: Option<PeerInfo> = None;
        slots.set_and_swap(j, &mut taken);
        assert(taken == Some(peers@[j as int]));
        assert(targets@[m as int] as int == last_named(pv, u[m as int]));
        assert(pv[j as int] == peers@[j as int]@);
        match taken {
            Some(p) => {
                let ghost before = peer_views(out@);
                out.push(p);
                assert(peer_views(out@) =~= before.push(pv[j as int]));
                assert(peer_views(out@) =~= Seq::new(
                    (m + 1) as nat,
                    |q: int| pv[last_named(pv, u[q])],
                ));
            },
            None => {},
        }
        m = m + 1;
    }
    Ok(out)
}

// ---------------------------------------------------------------------------
// Laws.

/// The unknown names are exactly the requested names no peer carries.
pub proof fn lemma_unknown_names(u: Seq<Seq<char>>, ps: Seq<PeerView>)
    ensures
        forall|n: Seq<char>|
            unknown_names(u, ps).contains(n) <==> (u.contains(n) && last_named(ps, n) < 0),
    decreases u.len(),
{
    if u.len() > 0 {
        let d = u.drop_last();
        lemma_unknown_names(d, ps);
        let p = unknown_names(d, ps);
        assert forall|n: Seq<char>|
            unknown_names(u, ps).contains(n) <==> (u.contains(n) && last_named(ps, n) < 0) by {
            if unknown_names(u, ps).contains(n) {
                let k = choose|k: int|
                    0 <= k < unknown_names(u, ps).len() && unknown_names(u, ps)[k] == n;
                if k < p.len() {
                    assert(p[k] == n);
                    assert(p.contains(n));
                    assert(d.contains(n));
                    let j = choose|j: int| 0 <= j < d.len() && d[j] == n;
                    assert(u[j] == d[j]);
                } else {
                    assert(u[u.len() - 1] == n);
                }
            }
            if u.contains(n) && last_named(ps, n) < 0 {
                let j = choose|j: int| 0 <= j < u.len() && u[j] == n;
                if j < u.len() - 1 {
                    assert(d[j] == n);
                    assert(d.contains(n));
                    assert(p.contains(n));
                    let k = choose|k: int| 0 <= k < p.len() && p[k] == n;
                    assert(unknown_names(u, ps)[k] == n);
                } else {
                    assert(unknown_names(u, ps)[p.len() as int] == n);
                }
            }
        }
    }
}

/// The `--peer` filter selects by exact name and by nothing else. With no
/// request it returns the discovered peers unchanged. Otherwise it succeeds
/// exactly when every requested name is carried by a discovered peer; it then
/// returns one peer per distinct requested name, in the order first asked,
/// each a discovered peer carrying that name. When it fails, it names each
/// requested name that no peer carries, once, and no other name.
pub proof fn lemma_peer_filter(ps: Seq<PeerView>, req: Seq<Seq<char>>)
    ensures
        req.len() == 0 ==> peer_filter_spec(ps, req) == Ok::<Seq<PeerView>, Seq<Seq<char>>>(ps),
        req.len() > 0 ==> ((peer_filter_spec(ps, req) is Ok) <==> forall|n: Seq<char>|
            #[trigger] req.contains(n) ==> exists|i: int| 0 <= i < ps.len() && ps[i].name == n),
        match peer_filter_spec(ps, req) {
            Ok(v) => req.len() > 0 ==> (v.len() == dedup(req).len() && forall|k: int|
                0 <= k < v.len() ==> #[trigger] v[k].name == dedup(req)[k] && ps.contains(v[k])),
            Err(e) => forall|n: Seq<char>|
                #[trigger] e.contains(n) <==> (req.contains(n) && forall|i: int|
                    0 <= i < ps.len() ==> ps[i].name != n),
        },
        forall|a: int, b: int| 0 <= a < b < dedup(req).len() ==> dedup(req)[a] != dedup(req)[b],
{
    lemma_dedup(req);
    if req.len() > 0 {
        let u = dedup(req);
        lemma_unknown_names(u, ps);
        assert forall|n: Seq<char>| #[trigger] u.contains(n) <==> req.contains(n) by {}
        assert forall|n: Seq<char>|
            #![trigger last_named(ps, n)]
            last_named(ps, n) < 0 <==> forall|i: int| 0 <= i < ps.len() ==> ps[i].name != n by {
            lemma_last_named(ps, n);
        }
        let unk = unknown_names(u, ps);
        if unk.len() > 0 {
            let n0 = unk[0];
            assert(unk.contains(n0));
            assert(req.contains(n0));
            assert(last_named(ps, n0) < 0);
            if forall|n: Seq<char>|
                #[trigger] req.contains(n) ==> exists|i: int| 0 <= i < ps.len() && ps[i].name == n {
                let i = choose|i: int| 0 <= i < ps.len() && ps[i].name == n0;
                assert(ps[i].name == n0);
            }
        } else {
            assert forall|n: Seq<char>| #[trigger] req.contains(n) implies exists|i: int|
                0 <= i < ps.len() && ps[i].name == n by {
                assert(u.contains(n));
                if last_named(ps, n) < 0 {
                    assert(unk.contains(n));
                }
                lemma_last_named(ps, n);
                assert(ps[last_named(ps, n)].name == n);
            }
            let v = Seq::new(u.len(), |k: int| ps[last_named(ps, u[k])]);
            assert forall|k: int| 0 <= k < v.len() implies #[trigger] v[k].name == u[k] && ps.contains(
                v[k],
            ) by {
                assert(u.contains(u[k]));
                if last_named(ps, u[k]) < 0 {
                    assert(unk.contains(u[k]));
                }
                lemma_last_named(ps, u[k]);
            }
        }
    }
}

/// A peer is working exactly when its chosen session is active or running;
/// a session waiting for input overrides its status and never counts as
/// working; an exit code is reported exactly for an exited session; the
/// legacy status reads "active" exactly when the peer is working.
pub proof fn lemma_working_state(key: Seq<char>, expected: Option<Seq<char>>, index: IndexView)
    ensures
        ({
            let st = peer_status_spec(key, expected, index);
            &&& st.working <==> (st.session_status == "active"@ || st.session_status
                == "running"@)
            &&& st.waiting_for_input ==> (!st.working && st.session_status == "waiting"@)
            &&& st.exit_code.is_some() <==> st.session_status == "exited"@
            &&& st.status_legacy == (if st.working {
                "active"@
            } else {
                "unknown"@
            })
            &&& st.session_id.is_none() <==> st.session_status == "none"@
        }),
{
    reveal_strlit("active");
    reveal_strlit("running");
    reveal_strlit("waiting");
    reveal_strlit("exited");
    reveal_strlit("idle");
    reveal_strlit("none");
    reveal_strlit("unknown");
    assert("active"@[0] == 'a' && "running"@[0] == 'r' && "waiting"@[0] == 'w');
    assert("exited"@[0] == 'e' && "idle"@[0] == 'i' && "none"@[0] == 'n' && "unknown"@[0] == 'u');
    match lookup(index, key) {
        None => {},
        Some(cs) => {
            let b = best_candidate(cs, expected);
            if b >= 0 {
                let c = cs[b];
                if !c.waiting {
                    match c.status {
                        SessionStatus::Active => {},
                        SessionStatus::Running => {},
                        SessionStatus::Idle => {},
                        SessionStatus::Exited(_) => {},
                    }
                }
            }
        },
    }
}

/// Candidates of the indexed rows filed under key `k`, in row order.
pub open spec fn rows_under(rows: Seq<PersistedView>, k: Seq<char>) -> Seq<CandView>
    decreases rows.len(),
{
    if rows.len() == 0 {
        Seq::empty()
    } else {
        let prev = rows_under(rows.drop_last(), k);
        let r = rows.last();
        if indexed(r) && norm_path_spec(r.working_directory) == k {
            prev.push(candidate_of(r))
        } else {
            prev
        }
    }
}

proof fn lemma_find_entry_same_keys(s: IndexView, t: IndexView, k: Seq<char>)
    requires
        s.len() == t.len(),
        forall|i: int| 0 <= i < s.len() ==> #[trigger] s[i].0 == t[i].0,
    ensures
        find_entry(s, k) == find_entry(t, k),
    decreases s.len(),
{
    if s.len() > 0 {
        let ds = s.drop_last();
        let dt = t.drop_last();
        assert forall|i: int| 0 <= i < ds.len() implies #[trigger] ds[i].0 == dt[i].0 by {
            assert(ds[i] == s[i]);
            assert(dt[i] == t[i]);
        }
        lemma_find_entry_same_keys(ds, dt, k);
    }
}

proof fn lemma_lookup_file_under(s: IndexView, k0: Seq<char>, c: CandView, k: Seq<char>)
    ensures
        lookup(file_under(s, k0, c), k) == (if k == k0 {
            Some(
                match lookup(s, k) {
                    Some(b) => b,
                    None => Seq::<CandView>::empty(),
                }.push(c),
            )
        } else {
            lookup(s, k)
        }),
{
    lemma_find_entry(s, k0);
    lemma_find_entry(s, k);
    let i = find_entry(s, k0);
    let t = file_under(s, k0, c);
    if i >= 0 {
        assert forall|j: int| 0 <= j < s.len() implies #[trigger] s[j].0 == t[j].0 by {}
        lemma_find_entry_same_keys(s, t, k);
        if k != k0 {
            let j = find_entry(s, k);
            if j >= 0 {
                assert(j != i);
                assert(t[j] == s[j]);
            }
        }
    } else {
        assert(t.drop_last() =~= s);
        if k == k0 {
            assert(find_entry(t, k) == s.len());
            assert(seq![c] =~= Seq::<CandView>::empty().push(c));
        }
    }
}

/// The session index groups the rows by key: under each key it holds, in
/// row order, exactly the candidates of the indexed rows whose working
/// directory has that key, and it has no entry for a key no such row has.
pub proof fn lemma_index_groups_rows(rows: Seq<PersistedView>, k: Seq<char>)
    ensures
        lookup(index_spec(rows), k) == (if rows_under(rows, k).len() > 0 {
            Some(rows_under(rows, k))
        } else {
            None
        }),
    decreases rows.len(),
{
    if rows.len() > 0 {
        let d = rows.drop_last();
        lemma_index_groups_rows(d, k);
        let r = rows.last();
        if indexed(r) {
            lemma_lookup_file_under(index_spec(d), norm_path_spec(r.working_directory), candidate_of(r), k);
        }
    }
}

/// The number of candidates an index holds, over all its entries.
pub open spec fn entry_total(s: IndexView) -> nat
    decreases s.len(),
{
    if s.len() == 0 {
        0
    } else {
        entry_total(s.drop_last()) + s.last().1.len()
    }
}

/// The number of rows that are indexed (see [`indexed`]).
pub open spec fn indexed_count(rows: Seq<PersistedView>) -> nat
    decreases rows.len(),
{
    if rows.len() == 0 {
        0
    } else {
        indexed_count(rows.drop_last()) + if indexed(rows.last()) {
            1nat
        } else {
            0nat
        }
    }
}

proof fn lemma_entry_total_update(s: IndexView, i: int, k: Seq<char>, c: CandView)
    requires
        0 <= i < s.len(),
    ensures
        entry_total(s.update(i, (k, s[i].1.push(c)))) == entry_total(s) + 1,
    decreases s.len(),
{
    let t = s.update(i, (k, s[i].1.push(c)));
    if i == s.len() - 1 {
        assert(t.drop_last() =~= s.drop_last());
    } else {
        assert(t.drop_last() =~= s.drop_last().update(i, (k, s.drop_last()[i].1.push(c))));
        lemma_entry_total_update(s.drop_last(), i, k, c);
    }
}

proof fn lemma_entry_total_file_under(s: IndexView, k: Seq<char>, c: CandView)
    ensures
        entry_total(file_under(s, k, c)) == entry_total(s) + 1,
{
    lemma_find_entry(s, k);
    let i = find_entry(s, k);
    if i >= 0 {
        lemma_entry_total_update(s, i, k, c);
    } else {
        assert(s.push((k, seq![c])).drop_last() =~= s);
    }
}

/// The session index holds every indexed row once, and nothing else: its
/// candidates number the indexed rows, and no entry is empty.
pub proof fn lemma_index_counts_rows(rows: Seq<PersistedView>)
    ensures
        entry_total(index_spec(rows)) == indexed_count(rows),
        forall|i: int| 0 <= i < index_spec(rows).len() ==> #[trigger] index_spec(rows)[i].1.len() > 0,
    decreases rows.len(),
{
    if rows.len() > 0 {
        let d = rows.drop_last();
        lemma_index_counts_rows(d);
        let r = rows.last();
        let prev = index_spec(d);
        if indexed(r) {
            let k = norm_path_spec(r.working_directory);
            lemma_entry_total_file_under(prev, k, candidate_of(r));
            lemma_find_entry(prev, k);
            let cur = index_spec(rows);
            assert forall|i: int| 0 <= i < cur.len() implies #[trigger] cur[i].1.len() > 0 by {
                if find_entry(prev, k) >= 0 {
                    if i != find_entry(prev, k) {
                        assert(cur[i] == prev[i]);
                    }
                } else if i < prev.len() {
                    assert(cur[i] == prev[i]);
                }
            }
        }
    }
}

// ---------------------------------------------------------------------------
// The two listing verbs.

/// The arguments of `list-peers`.
pub struct ListPeersArgs {
    /// Session token; shape-checked only.
    pub token: Option<String>,
    /// The calling agent's root directory.
    pub root: Option<String>,
    /// Names to keep (`--peer`, repeatable).
    pub peer: Vec<String>,
}

/// The arguments of `list-peers-lean`.
pub struct ListPeersLeanArgs {
    pub token: Option<String>,
    pub root: Option<String>,
    pub peer: Vec<String>,
}

/// The checks `list-peers` makes before any discovery: the token's shape,
/// then the root. Gives the root to discover from, or the failure.
pub fn preflight(
    args: &ListPeersArgs,
    root_token: &Option<String>,
    master_token: &Option<String>,
) -> (r: Result<String, CliFailure>)
    ensures
        match r {
            Ok(root) => token_check_spec(
                crate::cli::opt_view(args.token),
                crate::cli::opt_view(*root_token),
                crate::cli::opt_view(*master_token),
            ) is Ok && crate::cli::opt_view(args.root) == Some(root@),
            Err(f) => f.exit_code == 1 && (match token_check_spec(
                crate::cli::opt_view(args.token),
                crate::cli::opt_view(*root_token),
                crate::cli::opt_view(*master_token),
            ) {
                Err(e) => f.message@ == e,
                Ok(_) => args.root.is_none() && f.message@ == MISSING_ROOT_ERROR@,
            }),
        },
{
    require_token_and_root(&args.token, &args.root, root_token, master_token)
}

/// The checks `list-peers-lean` makes before any discovery (as [`preflight`]).
pub fn preflight_lean(
    args: &ListPeersLeanArgs,
    root_token: &Option<String>,
    master_token: &Option<String>,
) -> (r: Result<String, CliFailure>)
    ensures
        match r {
            Ok(root) => token_check_spec(
                crate::cli::opt_view(args.token),
                crate::cli::opt_view(*root_token),
                crate::cli::opt_view(*master_token),
            ) is Ok && crate::cli::opt_view(args.root) == Some(root@),
            Err(f) => f.exit_code == 1 && (match token_check_spec(
                crate::cli::opt_view(args.token),
                crate::cli::opt_view(*root_token),
                crate::cli::opt_view(*master_token),
            ) {
                Err(e) => f.message@ == e,
                Ok(_) => args.root.is_none() && f.message@ == MISSING_ROOT_ERROR@,
            }),
        },
{
    require_token_and_root(&args.token, &args.root, root_token, master_token)
}

pub open spec fn names_of(ps: Seq<PeerView>) -> Seq<Seq<char>> {
    ps.map_values(|p: PeerView| p.name)
}

/// The two stderr lines for unknown requested peers.
pub open spec fn unknown_peers_message_spec(unknown: Seq<Seq<char>>, available: Seq<Seq<char>>) -> Seq<
    char,
> {
    "Error: unknown peer(s) requested via --peer: "@ + join(unknown, ", "@) + "\n"@ + (if available.len()
        == 0 {
        "No peers were discovered for this --root."@
    } else {
        "Available peers: "@ + join(available, ", "@)
    })
}

/// The report of unknown requested peers, naming the peers that were found.
pub fn unknown_peers_message(unknown: &Vec<String>, available: &Vec<String>) -> (out: String)
    ensures
        out@ == unknown_peers_message_spec(views(unknown@), views(available@)),
{
    let sep = chars_of(", ");
    let mut out: Vec<char> = Vec::new();
    crate::text::append_str(&mut out, "Error: unknown peer(s) requested via --peer: ");
    let u = crate::text::chars_all(unknown);
    let ju = join_chars(&u, &sep);
    crate::text::append_chars(&mut out, &ju);
    crate::text::append_str(&mut out, "\n");
    if available.len() == 0 {
        crate::text::append_str(&mut out, "No peers were discovered for this --root.");
    } else {
        crate::text::append_str(&mut out, "Available peers: ");
        let a = crate::text::chars_all(available);
        let ja = join_chars(&a, &sep);
        crate::text::append_chars(&mut out, &ja);
    }
    string_of(&out)
}

fn peer_names(peers: &Vec<PeerInfo>) -> (out: Vec<String>)
    ensures
        views(out@) == names_of(peer_views(peers@)),
{
    let mut out: Vec<String> = Vec::new();
    let mut i: usize = 0;
    while i < peers.len()
        invariant
            i <= peers@.len(),
            views(out@) == names_of(peer_views(peers@)).take(i as int),
        decreases peers@.len() - i,
    {
        let ghost before = views(out@);
        let n = peers[i].name.clone();
        out.push(n);
        assert(views(out@) =~= before.push(peers@[i as int].name@));
        assert(names_of(peer_views(peers@)).take(i + 1) =~= names_of(peer_views(peers@)).take(
            i as int,
        ).push(peers@[i as int].name@));
        i = i + 1;
    }
    assert(names_of(peer_views(peers@)).take(i as int) =~= names_of(peer_views(peers@)));
    out
}

/// What a listing verb does with the discovered peers: with no `--peer`,
/// all of them; otherwise the filtered peers, or, when a requested name is
/// unknown, exit code 1 with the report naming the unknown and the
/// discovered peers.
pub fn select_peers(peers: Vec<PeerInfo>, requested: &Vec<String>) -> (r: Result<
    Vec<PeerInfo>,
    CliFailure,
>)
    ensures
        match peer_filter_spec(peer_views(peers@), views(requested@)) {
            Ok(v) => r is Ok && peer_views(r->Ok_0@) == v,
            Err(unknown) => r is Err && r->Err_0.exit_code == 1 && r->Err_0.message@
                == unknown_peers_message_spec(unknown, names_of(peer_views(peers@))),
        },
{
    let available = peer_names(&peers);
    match apply_peer_filter(peers, requested.as_slice()) {
        Ok(v) => Ok(v),
        Err(unknown) => Err(
            CliFailure { exit_code: 1, message: unknown_peers_message(&unknown, &available) },
        ),
    }
}

// ---------------------------------------------------------------------------
// Peers of Room replicas and of teams.

/// The team of a Room workgroup: its name after `wg-` and the number, as in
/// `wg-1-ac-devs` → `ac-devs`.
pub open spec fn wg_team_spec(wg_name: Seq<char>) -> Option<Seq<char>> {
    if starts_with(wg_name, "wg-"@) {
        let rest = wg_name.subrange(3, wg_name.len() as int);
        if rest.contains('-') {
            Some(after_char(rest, '-'))
        } else {
            None
        }
    } else {
        None
    }
}

/// The team of a Room workgroup (see [`wg_team_spec`]).
pub fn wg_team_name(wg_name: &str) -> (r: Option<String>)
    ensures
        opt_view(r) == wg_team_spec(wg_name@),
{
    let v = chars_of(wg_name);
    proof {
        reveal_strlit("wg-");
    }
    if !starts_with_str(&v, "wg-") {
        return None;
    }
    let rest = slice_range(&v, 3, v.len());
    match split_once_char(&rest, '-') {
        Some((_, after)) => Some(string_of(&after)),
        None => None,
    }
}

/// The canonical name of a Room replica: `<project>:<room>/<agent>`.
pub fn wg_peer_name(project: &str, wg_name: &str, agent: &str) -> (out: String)
    ensures
        out@ == project@ + ":"@ + wg_name@ + "/"@ + agent@,
{
    let mut v: Vec<char> = Vec::new();
    append_str(&mut v, project);
    append_str(&mut v, ":");
    append_str(&mut v, wg_name);
    append_str(&mut v, "/");
    append_str(&mut v, agent);
    string_of(&v)
}

/// Where a Room replica sits, read from its directory names.
pub struct WgReplicaNames {
    pub agent: String,
    pub wg_name: String,
    pub project: String,
}

/// A Room replica's directory is `<project>/.ac-new/wg-*/__agent_<agent>`:
/// given the names of the directory, its parent, grandparent and
/// great-grandparent, the agent, Room and project it belongs to.
pub fn wg_replica_names(dir_name: &str, wg_name: &str, ac_name: &str, project: &str) -> (r: Option<
    WgReplicaNames,
>)
    ensures
        match r {
            Some(n) => starts_with(dir_name@, "__agent_"@) && starts_with(wg_name@, "wg-"@) && ac_name@
                == ".ac-new"@ && n.agent@ == dir_name@.subrange(8, dir_name@.len() as int) && n.wg_name@
                == wg_name@ && n.project@ == project@,
            None => !(starts_with(dir_name@, "__agent_"@) && starts_with(wg_name@, "wg-"@) && ac_name@
                == ".ac-new"@),
        },
{
    let d = chars_of(dir_name);
    let w = chars_of(wg_name);
    proof {
        reveal_strlit("__agent_");
        reveal_strlit("wg-");
    }
    if !starts_with_str(&d, "__agent_") || !starts_with_str(&w, "wg-") || !str_eq(ac_name, ".ac-new") {
        return None;
    }
    let agent = slice_range(&d, 8, d.len());
    Some(WgReplicaNames { agent: string_of(&agent), wg_name: owned(wg_name), project: owned(project) })
}

/// The session name a Room replica's session has: `<room>/<agent>`.
pub fn wg_session_name(wg_name: &str, agent: &str) -> (out: String)
    ensures
        out@ == wg_name@ + "/"@ + agent@,
{
    let mut v: Vec<char> = Vec::new();
    append_str(&mut v, wg_name);
    append_str(&mut v, "/");
    append_str(&mut v, agent);
    string_of(&v)
}

/// A Room replica as a peer: named `<project>:<room>/<agent>`, in the one
/// team that is its Room, with the session state `status` found for it (see
/// [`compute_peer_status`]), its role text and last coding agent as read.
pub fn wg_peer(
    project: &str,
    agent: &str,
    wg_name: &str,
    path: &str,
    reachable: bool,
    status: PeerStatus,
    role: String,
    last_coding_agent: Option<String>,
) -> (p: PeerInfo)
    ensures
        p.name@ == project@ + ":"@ + wg_name@ + "/"@ + agent@,
        p.path@ == path@,
        p.status@ == status.status_legacy@,
        p.role == role,
        views(p.teams@) == seq![wg_name@],
        p.reachable == reachable,
        p.last_coding_agent == last_coding_agent,
        p.working == status.working,
        p.session_status@ == status.session_status@,
        p.session_id == status.session_id,
        p.waiting_for_input == status.waiting_for_input,
        p.exit_code == status.exit_code,
{
    let teams = vec![owned(wg_name)];
    assert(views(teams@) =~= seq![wg_name@]);
    PeerInfo {
        name: wg_peer_name(project, wg_name, agent),
        path: owned(path),
        status: status.status_legacy,
        role,
        teams,
        reachable,
        last_coding_agent,
        working: status.working,
        session_status: status.session_status,
        session_id: status.session_id,
        waiting_for_input: status.waiting_for_input,
        exit_code: status.exit_code,
    }
}

/// A replica directory of a Room, as the coordinator search reads it: its
/// directory name and the canonical path of the identity its `config.json`
/// names, where that could be read.
pub struct ReplicaIdentity {
    pub dir_name: String,
    pub identity: Option<String>,
}

/// Whether replica `r` is an agent replica whose identity is `coordinator`.
pub open spec fn is_coordinator_replica(r: ReplicaIdentity, coordinator: Seq<char>) -> bool {
    starts_with(r.dir_name@, "__agent_"@) && r.identity is Some && r.identity->0@ == coordinator
}

/// The coordinator of a Room: the agent of the first replica (in the order
/// given) whose identity is the team's coordinator `coordinator_abs`.
pub fn coordinator_replica(coordinator_abs: &str, replicas: &Vec<ReplicaIdentity>) -> (r: Option<String>)
    ensures
        match r {
            Some(name) => exists|k: int|
                0 <= k < replicas@.len() && is_coordinator_replica(#[trigger] replicas@[k], coordinator_abs@)
                    && (forall|j: int| 0 <= j < k ==> !is_coordinator_replica(#[trigger] replicas@[j], coordinator_abs@))
                    && name@ == replicas@[k].dir_name@.subrange(8, replicas@[k].dir_name@.len() as int),
            None => forall|j: int| 0 <= j < replicas@.len() ==> !is_coordinator_replica(#[trigger] replicas@[j], coordinator_abs@),
        },
{
    proof {
        reveal_strlit("__agent_");
    }
    let mut i: usize = 0;
    while i < replicas.len()
        invariant
            i <= replicas@.len(),
            forall|j: int| 0 <= j < i ==> !is_coordinator_replica(#[trigger] replicas@[j], coordinator_abs@),
        decreases replicas@.len() - i,
    {
        let rep = &replicas[i];
        let d = chars_of(rep.dir_name.as_str());
        proof {
            reveal_strlit("__agent_");
        }
        let matches = match &rep.identity {
            Some(id) => starts_with_str(&d, "__agent_") && str_eq(id.as_str(), coordinator_abs),
            None => false,
        };
        if matches {
            let agent = slice_range(&d, 8, d.len());
            return Some(string_of(&agent));
        }
        i = i + 1;
    }
    None
}

/// Whether some peer of `peers` is named `name`.
pub fn has_peer_named(peers: &Vec<PeerInfo>, name: &str) -> (r: bool)
    ensures
        r == exists|j: int| 0 <= j < peers@.len() && #[trigger] peers@[j].name@ == name@,
{
    let mut i: usize = 0;
    while i < peers.len()
        invariant
            i <= peers@.len(),
            forall|k: int| 0 <= k < i ==> #[trigger] peers@[k].name@ != name@,
        decreases peers@.len() - i,
    {
        if str_eq(peers[i].name.as_str(), name) {
            return true;
        }
        i = i + 1;
    }
    false
}

/// A peer seen again through another team: that team added to its teams
/// (once), and reachable when either listing says so.
pub open spec fn merged_peer(p: PeerView, team: Seq<char>, reachable: bool) -> PeerView {
    PeerView {
        teams: if p.teams.contains(team) {
            p.teams
        } else {
            p.teams.push(team)
        },
        reachable: p.reachable || reachable,
        ..p
    }
}

/// A team member already listed is not listed twice: the first peer named
/// `name` takes the team and the reachability instead. Returns whether such
/// a peer was listed; otherwise the list is unchanged.
pub fn merge_team_peer(peers: &mut Vec<PeerInfo>, name: &str, team: &str, reachable: bool) -> (found: bool)
    ensures
        found == exists|j: int| 0 <= j < old(peers)@.len() && #[trigger] old(peers)@[j].name@ == name@,
        !found ==> peer_views(final(peers)@) == peer_views(old(peers)@),
        found ==> exists|k: int|
            0 <= k < old(peers)@.len() && old(peers)@[k].name@ == name@ && (forall|j: int|
                0 <= j < k ==> #[trigger] old(peers)@[j].name@ != name@) && peer_views(final(peers)@)
                == peer_views(old(peers)@).update(k, merged_peer(old(peers)@[k]@, team@, reachable)),
{
    let mut i: usize = 0;
    while i < peers.len()
        invariant
            i <= peers@.len(),
            peers@ == old(peers)@,
            forall|k: int| 0 <= k < i ==> #[trigger] peers@[k].name@ != name@,
        decreases peers@.len() - i,
    {
        if str_eq(peers[i].name.as_str(), name) {
            let ghost before = peers@;
            let mut p = peers.remove(i);
            if !contains_string(&p.teams, team) {
                let ghost t = views(p.teams@);
                p.teams.push(owned(team));
                assert(views(p.teams@) =~= t.push(team@));
            }
            p.reachable = p.reachable || reachable;
            let ghost pv = p@;
            peers.insert(i, p);
            assert(pv == merged_peer(before[i as int]@, team@, reachable));
            assert(peer_views(peers@) =~= peer_views(before).update(i as int, pv));
            return true;
        }
        i = i + 1;
    }
    false
}

/// Listing a team member again keeps every peer name (so no name is listed
/// twice), and leaves the team among the peer's teams exactly once when its
/// teams held no repeats.
pub proof fn lemma_merge_keeps_names(ps: Seq<PeerView>, k: int, team: Seq<char>, reachable: bool)
    requires
        0 <= k < ps.len(),
    ensures
        names_of(ps.update(k, merged_peer(ps[k], team, reachable))) == names_of(ps),
        merged_peer(ps[k], team, reachable).teams.contains(team),
        ps[k].teams.no_duplicates() ==> merged_peer(ps[k], team, reachable).teams.no_duplicates(),
{
    let m = merged_peer(ps[k], team, reachable);
    assert(names_of(ps.update(k, m)) =~= names_of(ps));
    if !ps[k].teams.contains(team) {
        assert(m.teams[ps[k].teams.len() as int] == team);
        if ps[k].teams.no_duplicates() {
            assert forall|i: int, j: int| 0 <= i < m.teams.len() && 0 <= j < m.teams.len() && i != j implies m.teams[i]
                != m.teams[j] by {
                if i < ps[k].teams.len() && j < ps[k].teams.len() {
                } else if i < ps[k].teams.len() {
                    assert(ps[k].teams.contains(ps[k].teams[i]));
                } else {
                    assert(ps[k].teams.contains(ps[k].teams[j]));
                }
            }
        }
    }
}


/// Session priorities are ordered: a session waiting for input outranks any
/// other; otherwise active outranks running, running outranks idle, and idle
/// outranks exited.
pub proof fn lemma_priority_order(a: CandView, b: CandView)
    ensures
        a.waiting && !b.waiting ==> priority_of(a) > priority_of(b),
        !a.waiting && !b.waiting && a.status is Active && !(b.status is Active) ==> priority_of(a) > priority_of(b),
        !a.waiting && !b.waiting && a.status is Running && (b.status is Idle || b.status is Exited) ==> priority_of(a)
            > priority_of(b),
        !a.waiting && !b.waiting && a.status is Idle && b.status is Exited ==> priority_of(a) > priority_of(b),
{
}

/// A peer whose directory holds a running session, and no session that is
/// waiting or active, is reported running and working, with the id of a
/// running session, whatever idle or exited sessions share its directory.
pub proof fn lemma_running_beats_idle(key: Seq<char>, index: IndexView, cs: Seq<CandView>, r: int)
    requires
        lookup(index, key) == Some(cs),
        0 <= r < cs.len(),
        !cs[r].waiting && cs[r].status is Running,
        forall|i: int| 0 <= i < cs.len() ==> !(#[trigger] cs[i]).waiting && !(cs[i].status is Active),
    ensures
        peer_status_spec(key, None, index).session_status == "running"@,
        peer_status_spec(key, None, index).working,
        peer_status_spec(key, None, index).status_legacy == "active"@,
        peer_status_spec(key, None, index).session_id matches Some(id) && exists|j: int|
            0 <= j < cs.len() && cs[j].status is Running && cs[j].id == id,
{
    lemma_best_candidate(cs, None);
    let b = best_candidate(cs, None);
    assert(eligible(cs[r], None));
    assert(b >= 0);
    assert(priority_of(cs[r]) <= priority_of(cs[b]));
    lemma_priority_order(cs[b], cs[r]);
    assert(cs[b].status is Running);
}

} // verus!
