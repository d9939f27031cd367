//! Character-level text primitives shared by the command modules.
//!
//! Text is modelled as `Seq<char>`; every operation below is stated over that
//! model and proved against it.
use vstd::prelude::*;

verus! {

broadcast use vstd::string::group_string_axioms;

/// Unicode `White_Space`, the set that `char::is_whitespace` tests.
pub open spec fn is_ws(c: char) -> bool {
    ||| ('\u{9}' <= c && c <= '\u{d}')
    ||| c == ' '
    ||| c == '\u{85}'
    ||| c == '\u{a0}'
    ||| c == '\u{1680}'
    ||| ('\u{2000}' <= c && c <= '\u{200a}')
    ||| c == '\u{2028}'
    ||| c == '\u{2029}'
    ||| c == '\u{202f}'
    ||| c == '\u{205f}'
    ||| c == '\u{3000}'
}

/// Whether `c` is Unicode whitespace.
pub fn is_whitespace(c: char) -> (b: bool)
    ensures
        b == is_ws(c),
{
    ('\u{9}' <= c && c <= '\u{d}') || c == ' ' || c == '\u{85}' || c == '\u{a0}' || c
        == '\u{1680}' || ('\u{2000}' <= c && c <= '\u{200a}') || c == '\u{2028}' || c
        == '\u{2029}' || c == '\u{202f}' || c == '\u{205f}' || c == '\u{3000}'
}

/// ASCII upper-case letters map to lower case; every other char is kept.
pub open spec fn ascii_lower(c: char) -> char {
    if 'A' <= c && c <= 'Z' {
        ((c as u32) + 32) as char
    } else {
        c
    }
}

/// ASCII lower-case letters map to upper case; every other char is kept.
pub open spec fn ascii_upper(c: char) -> char {
    if 'a' <= c && c <= 'z' {
        ((c as u32) - 32) as char
    } else {
        c
    }
}

pub open spec fn lower_seq(s: Seq<char>) -> Seq<char> {
    s.map_values(|c: char| ascii_lower(c))
}

pub open spec fn is_ascii_digit(c: char) -> bool {
    '0' <= c && c <= '9'
}

pub open spec fn is_ascii_alpha(c: char) -> bool {
    ('a' <= c && c <= 'z') || ('A' <= c && c <= 'Z')
}

pub open spec fn starts_with(s: Seq<char>, p: Seq<char>) -> bool {
    p.is_prefix_of(s)
}

pub open spec fn ends_with(s: Seq<char>, p: Seq<char>) -> bool {
    p.is_suffix_of(s)
}

/// `p` occurs in `s` starting at position `i`.
pub open spec fn occurs_at(s: Seq<char>, p: Seq<char>, i: int) -> bool {
    0 <= i && i + p.len() <= s.len() && s.subrange(i, i + p.len()) == p
}

pub open spec fn contains_sub(s: Seq<char>, p: Seq<char>) -> bool {
    exists|i: int| occurs_at(s, p, i)
}

/// Drops leading chars satisfying `pred`.
pub open spec fn trim_start_by(s: Seq<char>, pred: spec_fn(char) -> bool) -> Seq<char>
    decreases s.len(),
{
    if s.len() > 0 && pred(s[0]) {
        trim_start_by(s.drop_first(), pred)
    } else {
        s
    }
}

/// Drops trailing chars satisfying `pred`.
pub open spec fn trim_end_by(s: Seq<char>, pred: spec_fn(char) -> bool) -> Seq<char>
    decreases s.len(),
{
    if s.len() > 0 && pred(s.last()) {
        trim_end_by(s.drop_last(), pred)
    } else {
        s
    }
}

pub open spec fn trim_by(s: Seq<char>, pred: spec_fn(char) -> bool) -> Seq<char> {
    trim_end_by(trim_start_by(s, pred), pred)
}

pub open spec fn ws_pred() -> spec_fn(char) -> bool {
    |c: char| is_ws(c)
}

/// `str::trim`: whitespace removed from both ends.
pub open spec fn trim_ws(s: Seq<char>) -> Seq<char> {
    trim_by(s, ws_pred())
}

pub open spec fn in_set(set: Seq<char>) -> spec_fn(char) -> bool {
    |c: char| set.contains(c)
}

/// Fields of `s` separated by the chars satisfying `pred` (what `str::split`
/// with a char predicate yields): always at least one field.
pub open spec fn split_by(s: Seq<char>, pred: spec_fn(char) -> bool) -> Seq<Seq<char>>
    decreases s.len(),
{
    if s.len() == 0 {
        seq![Seq::<char>::empty()]
    } else {
        let rest = split_by(s.drop_last(), pred);
        if pred(s.last()) {
            rest.push(Seq::<char>::empty())
        } else {
            rest.update(rest.len() - 1, rest.last().push(s.last()))
        }
    }
}

/// The non-empty entries of `q`, in order.
pub open spec fn non_empty(q: Seq<Seq<char>>) -> Seq<Seq<char>>
    decreases q.len(),
{
    if q.len() == 0 {
        Seq::<Seq<char>>::empty()
    } else {
        let rest = non_empty(q.drop_last());
        if q.last().len() > 0 {
            rest.push(q.last())
        } else {
            rest
        }
    }
}

/// `str::split_whitespace`.
pub open spec fn words(s: Seq<char>) -> Seq<Seq<char>> {
    non_empty(split_by(s, ws_pred()))
}

/// One trailing `'\r'` removed, if present.
pub open spec fn strip_cr(s: Seq<char>) -> Seq<char> {
    if s.len() > 0 && s.last() == '\r' {
        s.drop_last()
    } else {
        s
    }
}

pub open spec fn nl_pred() -> spec_fn(char) -> bool {
    |c: char| c == '\n'
}

/// `str::lines`: pieces between `'\n'`; a piece that ended with `"\r\n"` loses
/// its `'\r'`; a final empty piece (text empty or ending in `'\n'`) is dropped.
pub open spec fn lines(s: Seq<char>) -> Seq<Seq<char>> {
    let pieces = split_by(s, nl_pred());
    if pieces.last().len() == 0 {
        pieces.drop_last().map_values(|p: Seq<char>| strip_cr(p))
    } else {
        pieces.drop_last().map_values(|p: Seq<char>| strip_cr(p)).push(pieces.last())
    }
}

/// `parts` joined with `sep` between consecutive entries.
pub open spec fn join(parts: Seq<Seq<char>>, sep: Seq<char>) -> Seq<char>
    decreases parts.len(),
{
    if parts.len() == 0 {
        Seq::<char>::empty()
    } else if parts.len() == 1 {
        parts[0]
    } else {
        join(parts.drop_last(), sep) + sep + parts.last()
    }
}

pub open spec fn views(v: Seq<String>) -> Seq<Seq<char>> {
    v.map_values(|s: String| s@)
}

pub open spec fn char_views(v: Seq<Vec<char>>) -> Seq<Seq<char>> {
    v.map_values(|s: Vec<char>| s@)
}

// ---------------------------------------------------------------------------
// Conversions between `&str`, `String` and `Vec<char>`.

/// The characters of `s`, in order.
pub fn chars_of(s: &str) -> (out: Vec<char>)
    ensures
        out@ == s@,
{
    let mut out: Vec<char> = Vec::new();
    for c in it: s.chars()
        invariant
            out@ == it.seq().take(it.index() as int),
    {
        out.push(c);
    }
    out
}

/// Appends one char: `String::push`.
#[verifier::external_body]
pub(crate) fn push_char(s: &mut String, c: char)
    ensures
        final(s)@ == old(s)@.push(c),
{
    s.push(c);
}

/// A `String` holding exactly the chars of `v`.
pub fn string_of(v: &[char]) -> (out: String)
    ensures
        out@ == v@,
{
    let mut out = String::new();
    let mut i: usize = 0;
    while i < v.len()
        invariant
            i <= v@.len(),
            out@ == v@.take(i as int),
        decreases v@.len() - i,
    {
        push_char(&mut out, v[i]);
        assert(v@.take(i + 1) == v@.take(i as int).push(v@[i as int]));
        i = i + 1;
    }
    assert(v@.take(v@.len() as int) == v@);
    out
}

/// A `String` equal to `s`.
pub fn owned(s: &str) -> (out: String)
    ensures
        out@ == s@,
{
    let v = chars_of(s);
    string_of(&v)
}

// ---------------------------------------------------------------------------
// Comparison and search.

/// Whether two char sequences are equal.
pub fn seq_eq(a: &[char], b: &[char]) -> (r: bool)
    ensures
        r == (a@ == b@),
{
    if a.len() != b.len() {
        return false;
    }
    let mut i: usize = 0;
    while i < a.len()
        invariant
            a@.len() == b@.len(),
            i <= a@.len(),
            forall|k: int| 0 <= k < i ==> a@[k] == b@[k],
        decreases a@.len() - i,
    {
        if a[i] != b[i] {
            return false;
        }
        i = i + 1;
    }
    assert(a@ =~= b@);
    true
}

/// Whether `a` spells the text `lit`.
pub fn eq_str(a: &[char], lit: &str) -> (r: bool)
    ensures
        r == (a@ == lit@),
{
    let b = chars_of(lit);
    seq_eq(a, &b)
}

/// Whether two strings hold the same text.
pub fn str_eq(a: &str, b: &str) -> (r: bool)
    ensures
        r == (a@ == b@),
{
    let x = chars_of(a);
    eq_str(&x, b)
}

/// Whether `s` occurs at position `at` of `v`.
pub fn occurs_at_exec(v: &[char], p: &[char], at: usize) -> (r: bool)
    ensures
        r == occurs_at(v@, p@, at as int),
{
    if at > v.len() || p.len() > v.len() - at {
        return false;
    }
    let mut k: usize = 0;
    while k < p.len()
        invariant
            at + p@.len() <= v@.len(),
            v@.len() <= usize::MAX,
            k <= p@.len(),
            forall|j: int| 0 <= j < k ==> v@[at + j] == p@[j],
        decreases p@.len() - k,
    {
        if v[at + k] != p[k] {
            assert(v@.subrange(at as int, at + p@.len())[k as int] != p@[k as int]);
            return false;
        }
        k = k + 1;
    }
    assert(v@.subrange(at as int, at + p@.len()) =~= p@);
    true
}

/// `str::starts_with` on char sequences.
pub fn starts_with_exec(v: &[char], p: &[char]) -> (r: bool)
    ensures
        r == starts_with(v@, p@),
{
    let r = occurs_at_exec(v, p, 0);
    proof {
        if r {
            assert(v@.subrange(0, p@.len() as int) == p@);
        }
        if starts_with(v@, p@) {
            assert(occurs_at(v@, p@, 0));
        }
    }
    r
}

/// `str::starts_with` against a text literal.
pub fn starts_with_str(v: &[char], lit: &str) -> (r: bool)
    ensures
        r == starts_with(v@, lit@),
{
    let p = chars_of(lit);
    starts_with_exec(v, &p)
}

/// `str::ends_with` on char sequences.
pub fn ends_with_exec(v: &[char], p: &[char]) -> (r: bool)
    ensures
        r == ends_with(v@, p@),
{
    if p.len() > v.len() {
        return false;
    }
    let at = v.len() - p.len();
    let r = occurs_at_exec(v, p, at);
    r
}

/// `str::ends_with` against a text literal.
pub fn ends_with_str(v: &[char], lit: &str) -> (r: bool)
    ensures
        r == ends_with(v@, lit@),
{
    let p = chars_of(lit);
    ends_with_exec(v, &p)
}

/// Substring search: `str::contains` with a text needle.
pub fn contains_exec(v: &[char], p: &[char]) -> (r: bool)
    ensures
        r == contains_sub(v@, p@),
{
    if p.len() > v.len() {
        assert forall|i: int| !occurs_at(v@, p@, i) by {}
        return false;
    }
    if p.len() == 0 {
        assert(v@.subrange(0, 0) =~= p@);
        assert(occurs_at(v@, p@, 0));
        return true;
    }
    let mut at: usize = 0;
    while at <= v.len() - p.len()
        invariant
            1 <= p@.len() <= v@.len(),
            v@.len() <= usize::MAX,
            at <= v@.len() - p@.len() + 1,
            forall|i: int| 0 <= i < at ==> !occurs_at(v@, p@, i),
        decreases v@.len() - p@.len() + 1 - at,
    {
        if occurs_at_exec(v, p, at) {
            return true;
        }
        at = at + 1;
    }
    assert forall|i: int| !occurs_at(v@, p@, i) by {
        if 0 <= i && i < at {
        }
    }
    false
}

/// `str::contains` against a text literal.
pub fn contains_str(v: &[char], lit: &str) -> (r: bool)
    ensures
        r == contains_sub(v@, lit@),
{
    let p = chars_of(lit);
    contains_exec(v, &p)
}

/// Whether the char `c` occurs in `v`.
pub fn has_char(v: &[char], c: char) -> (r: bool)
    ensures
        r == v@.contains(c),
{
    let mut i: usize = 0;
    while i < v.len()
        invariant
            i <= v@.len(),
            forall|k: int| 0 <= k < i ==> v@[k] != c,
        decreases v@.len() - i,
    {
        if v[i] == c {
            assert(v@[i as int] == c);
            return true;
        }
        i = i + 1;
    }
    false
}

// ---------------------------------------------------------------------------
// Case mapping.

/// ASCII lower-casing of one char.
pub fn ascii_lower_char(c: char) -> (r: char)
    ensures
        r == ascii_lower(c),
{
    if 'A' <= c && c <= 'Z' {
        let code = (c as u32) + 32;
        assert(code < 128);
        let b = code as u8;
        b as char
    } else {
        c
    }
}

/// ASCII upper-casing of one char.
pub fn ascii_upper_char(c: char) -> (r: char)
    ensures
        r == ascii_upper(c),
{
    if 'a' <= c && c <= 'z' {
        let code = (c as u32) - 32;
        let b = code as u8;
        b as char
    } else {
        c
    }
}

/// `str::to_ascii_lowercase`.
pub fn to_ascii_lower(v: &[char]) -> (out: Vec<char>)
    ensures
        out@ == lower_seq(v@),
{
    let mut out: Vec<char> = Vec::new();
    let mut i: usize = 0;
    while i < v.len()
        invariant
            i <= v@.len(),
            out@ == lower_seq(v@.take(i as int)),
        decreases v@.len() - i,
    {
        let c = ascii_lower_char(v[i]);
        out.push(c);
        assert(lower_seq(v@.take(i + 1)) =~= lower_seq(v@.take(i as int)).push(ascii_lower(v@[i as int])));
        i = i + 1;
    }
    assert(v@.take(v@.len() as int) == v@);
    out
}

/// Whether two sequences are equal ignoring ASCII case: `eq_ignore_ascii_case`.
pub fn eq_ignore_ascii_case(a: &[char], b: &[char]) -> (r: bool)
    ensures
        r == (lower_seq(a@) == lower_seq(b@)),
{
    let la = to_ascii_lower(a);
    let lb = to_ascii_lower(b);
    seq_eq(&la, &lb)
}

/// The result of `str::to_lowercase` (full Unicode lower-casing) on `s`.
pub uninterp spec fn unicode_lowercase(s: Seq<char>) -> Seq<char>;

/// `str::to_lowercase`: full Unicode lower-casing. Its result is named
/// `unicode_lowercase`; nothing further about the Unicode tables is claimed.
#[verifier::external_body]
pub(crate) fn to_lowercase(s: &str) -> (out: String)
    ensures
        out@ == unicode_lowercase(s@),
{
    s.to_lowercase()
}

/// The `Display` text of the error `String::from_utf8` gives for `bytes`.
pub uninterp spec fn utf8_error_text(bytes: Seq<u8>) -> Seq<char>;

/// `String::from_utf8`: the text the bytes encode when they are valid UTF-8,
/// otherwise the error's `Display` text (named `utf8_error_text`).
#[verifier::external_body]
pub(crate) fn decode_utf8_text(bytes: Vec<u8>) -> (r: Result<String, String>)
    ensures
        r is Ok == vstd::utf8::valid_utf8(bytes@),
        r matches Ok(s) ==> s@ == vstd::utf8::decode_utf8(bytes@),
        r matches Err(e) ==> e@ == utf8_error_text(bytes@),
{
    String::from_utf8(bytes).map_err(|e| e.to_string())
}

// ---------------------------------------------------------------------------
// Trimming.

proof fn lemma_trim_start_step(s: Seq<char>, pred: spec_fn(char) -> bool, i: int)
    requires
        0 <= i < s.len(),
        pred(s[i]),
    ensures
        trim_start_by(s.skip(i), pred) == trim_start_by(s.skip(i + 1), pred),
{
    assert(s.skip(i).drop_first() =~= s.skip(i + 1));
}

proof fn lemma_trim_end_step(s: Seq<char>, pred: spec_fn(char) -> bool, j: int)
    requires
        0 < j <= s.len(),
        pred(s[j - 1]),
    ensures
        trim_end_by(s.take(j), pred) == trim_end_by(s.take(j - 1), pred),
{
    assert(s.take(j).drop_last() =~= s.take(j - 1));
}

/// Start and end of `v` once whitespace is trimmed from both ends.
pub fn trim_ws_bounds(v: &[char]) -> (r: (usize, usize))
    ensures
        r.0 <= r.1 <= v@.len(),
        v@.subrange(r.0 as int, r.1 as int) == trim_ws(v@),
{
    let ghost pred = ws_pred();
    let mut i: usize = 0;
    assert(v@.skip(0) =~= v@);
    while i < v.len() && is_whitespace(v[i])
        invariant
            i <= v@.len(),
            pred == ws_pred(),
            trim_start_by(v@, pred) == trim_start_by(v@.skip(i as int), pred),
        decreases v@.len() - i,
    {
        proof {
            lemma_trim_start_step(v@, pred, i as int);
        }
        i = i + 1;
    }
    let ghost t = v@.skip(i as int);
    assert(trim_start_by(v@, pred) == t);
    let mut j: usize = v.len();
    assert(t.take(t.len() as int) =~= t);
    while j > i && is_whitespace(v[j - 1])
        invariant
            i <= j <= v@.len(),
            pred == ws_pred(),
            t == v@.skip(i as int),
            trim_end_by(t, pred) == trim_end_by(t.take(j - i), pred),
        decreases j,
    {
        proof {
            lemma_trim_end_step(t, pred, j - i);
        }
        j = j - 1;
    }
    assert(t.take(j - i) =~= v@.subrange(i as int, j as int));
    (i, j)
}

/// `str::trim` on a char sequence.
pub fn trim(v: &[char]) -> (out: Vec<char>)
    ensures
        out@ == trim_ws(v@),
{
    let (a, b) = trim_ws_bounds(v);
    slice_range(v, a, b)
}

/// `v[a..b]` as a new vector.
pub fn slice_range(v: &[char], a: usize, b: usize) -> (out: Vec<char>)
    requires
        a <= b <= v@.len(),
    ensures
        out@ == v@.subrange(a as int, b as int),
{
    let mut out: Vec<char> = Vec::new();
    let mut k: usize = a;
    while k < b
        invariant
            a <= k <= b,
            b <= v@.len(),
            out@ == v@.subrange(a as int, k as int),
        decreases b - k,
    {
        out.push(v[k]);
        assert(v@.subrange(a as int, k + 1) =~= v@.subrange(a as int, k as int).push(v@[k as int]));
        k = k + 1;
    }
    out
}

/// Chars of `v` that are in `set`, trimmed from both ends: `str::trim_matches`
/// with a char set.
pub fn trim_set(v: &[char], set: &[char]) -> (out: Vec<char>)
    ensures
        out@ == trim_by(v@, in_set(set@)),
{
    let ghost pred = in_set(set@);
    let mut i: usize = 0;
    assert(v@.skip(0) =~= v@);
    while i < v.len() && has_char(set, v[i])
        invariant
            i <= v@.len(),
            pred == in_set(set@),
            trim_start_by(v@, pred) == trim_start_by(v@.skip(i as int), pred),
        decreases v@.len() - i,
    {
        proof {
            lemma_trim_start_step(v@, pred, i as int);
        }
        i = i + 1;
    }
    let ghost t = v@.skip(i as int);
    let mut j: usize = v.len();
    assert(t.take(t.len() as int) =~= t);
    while j > i && has_char(set, v[j - 1])
        invariant
            i <= j <= v@.len(),
            pred == in_set(set@),
            t == v@.skip(i as int),
            trim_start_by(v@, pred) == t,
            trim_end_by(t, pred) == trim_end_by(t.take(j - i), pred),
        decreases j,
    {
        proof {
            lemma_trim_end_step(t, pred, j - i);
        }
        j = j - 1;
    }
    assert(t.take(j - i) =~= v@.subrange(i as int, j as int));
    slice_range(v, i, j)
}

/// Trailing chars equal to `c` removed: `str::trim_end_matches(c)`.
pub fn trim_end_char(v: &[char], c: char) -> (out: Vec<char>)
    ensures
        out@ == trim_end_by(v@, |x: char| x == c),
{
    let ghost pred = |x: char| x == c;
    let mut j: usize = v.len();
    assert(v@.take(v@.len() as int) =~= v@);
    while j > 0 && v[j - 1] == c
        invariant
            j <= v@.len(),
            pred == (|x: char| x == c),
            trim_end_by(v@, pred) == trim_end_by(v@.take(j as int), pred),
        decreases j,
    {
        proof {
            lemma_trim_end_step(v@, pred, j as int);
        }
        j = j - 1;
    }
    assert(v@.take(j as int) =~= v@.subrange(0, j as int));
    slice_range(v, 0, j)
}

// ---------------------------------------------------------------------------
// Splitting and joining.

proof fn lemma_split_step(s: Seq<char>, pred: spec_fn(char) -> bool, i: int)
    requires
        0 <= i < s.len(),
    ensures
        split_by(s.take(i + 1), pred) == ({
            let rest = split_by(s.take(i), pred);
            if pred(s[i]) {
                rest.push(Seq::<char>::empty())
            } else {
                rest.update(rest.len() - 1, rest.last().push(s[i]))
            }
        }),
{
    assert(s.take(i + 1).drop_last() =~= s.take(i));
}

/// No field of a split holds a separator char.
pub proof fn lemma_split_fields_avoid(s: Seq<char>, pred: spec_fn(char) -> bool)
    ensures
        forall|i: int, j: int|
            0 <= i < split_by(s, pred).len() && 0 <= j < split_by(s, pred)[i].len() ==> !pred(
                #[trigger] split_by(s, pred)[i][j],
            ),
    decreases s.len(),
{
    if s.len() > 0 {
        lemma_split_fields_avoid(s.drop_last(), pred);
        lemma_split_nonempty(s.drop_last(), pred);
        let rest = split_by(s.drop_last(), pred);
        let cur = split_by(s, pred);
        if !pred(s.last()) {
            assert forall|i: int, j: int| 0 <= i < cur.len() && 0 <= j < cur[i].len() implies !pred(
                #[trigger] cur[i][j],
            ) by {
                if i < rest.len() - 1 {
                    assert(cur[i] == rest[i]);
                } else {
                    assert(cur[i] == rest.last().push(s.last()));
                    if j < rest.last().len() {
                        assert(cur[i][j] == rest[rest.len() - 1][j]);
                    }
                }
            }
        } else {
            assert forall|i: int, j: int| 0 <= i < cur.len() && 0 <= j < cur[i].len() implies !pred(
                #[trigger] cur[i][j],
            ) by {
                if i < rest.len() {
                    assert(cur[i] == rest[i]);
                }
            }
        }
    }
}

/// No line holds a line feed.
pub proof fn lemma_lines_have_no_newline(s: Seq<char>)
    ensures
        forall|i: int| 0 <= i < lines(s).len() ==> !(#[trigger] lines(s)[i]).contains('\n'),
{
    let pieces = split_by(s, nl_pred());
    lemma_split_fields_avoid(s, nl_pred());
    lemma_split_nonempty(s, nl_pred());
    let ls = lines(s);
    assert forall|i: int| 0 <= i < ls.len() implies !(#[trigger] ls[i]).contains('\n') by {
        if ls[i].contains('\n') {
            let j = choose|j: int| 0 <= j < ls[i].len() && ls[i][j] == '\n';
            if i < pieces.len() - 1 {
                let p = pieces[i];
                assert(ls[i] == strip_cr(p));
                assert(ls[i][j] == p[j]);
                assert(nl_pred()(p[j]));
            } else {
                assert(ls[i] == pieces.last());
                assert(nl_pred()(pieces[pieces.len() - 1][j]));
            }
        }
    }
}

/// Trimming adds no char: a char absent from `s` is absent from its trim.
pub proof fn lemma_trim_keeps_absent(s: Seq<char>, pred: spec_fn(char) -> bool, c: char)
    requires
        !s.contains(c),
    ensures
        !trim_by(s, pred).contains(c),
{
    lemma_trim_start_absent(s, pred, c);
    lemma_trim_end_absent(trim_start_by(s, pred), pred, c);
}

proof fn lemma_trim_start_absent(s: Seq<char>, pred: spec_fn(char) -> bool, c: char)
    requires
        !s.contains(c),
    ensures
        !trim_start_by(s, pred).contains(c),
    decreases s.len(),
{
    if s.len() > 0 && pred(s[0]) {
        assert forall|j: int| 0 <= j < s.drop_first().len() implies s.drop_first()[j] != c by {
            assert(s.drop_first()[j] == s[j + 1]);
        }
        lemma_trim_start_absent(s.drop_first(), pred, c);
    }
}

proof fn lemma_trim_end_absent(s: Seq<char>, pred: spec_fn(char) -> bool, c: char)
    requires
        !s.contains(c),
    ensures
        !trim_end_by(s, pred).contains(c),
    decreases s.len(),
{
    if s.len() > 0 && pred(s.last()) {
        assert forall|j: int| 0 <= j < s.drop_last().len() implies s.drop_last()[j] != c by {
            assert(s.drop_last()[j] == s[j]);
        }
        lemma_trim_end_absent(s.drop_last(), pred, c);
    }
}

proof fn lemma_split_append_plain(s: Seq<char>, t: Seq<char>, pred: spec_fn(char) -> bool)
    requires
        forall|j: int| 0 <= j < t.len() ==> !pred(#[trigger] t[j]),
    ensures
        split_by(s + t, pred) == split_by(s, pred).update(
            split_by(s, pred).len() - 1,
            split_by(s, pred).last() + t,
        ),
    decreases t.len(),
{
    lemma_split_nonempty(s, pred);
    if t.len() == 0 {
        assert(s + t =~= s);
        assert(split_by(s, pred).last() + t =~= split_by(s, pred).last());
        assert(split_by(s, pred).update(split_by(s, pred).len() - 1, split_by(s, pred).last())
            =~= split_by(s, pred));
    } else {
        let t1 = t.drop_last();
        lemma_split_append_plain(s, t1, pred);
        assert((s + t).drop_last() =~= s + t1);
        assert((s + t).last() == t.last());
        let rest = split_by(s + t1, pred);
        lemma_split_nonempty(s + t1, pred);
        let base = split_by(s, pred);
        assert(rest.last() == base.last() + t1);
        assert(rest.last().push(t.last()) =~= base.last() + t);
        assert(rest.update(rest.len() - 1, rest.last().push(t.last())) =~= base.update(
            base.len() - 1,
            base.last() + t,
        ));
    }
}

/// A word has no whitespace and is not empty.
pub open spec fn plain_word_shape(w: Seq<char>) -> bool {
    w.len() > 0 && forall|j: int| 0 <= j < w.len() ==> !is_ws(#[trigger] w[j])
}

proof fn lemma_split_of_join(ws: Seq<Seq<char>>)
    requires
        ws.len() > 0,
        forall|i: int| 0 <= i < ws.len() ==> plain_word_shape(#[trigger] ws[i]),
    ensures
        split_by(join(ws, " "@), ws_pred()) == ws,
    decreases ws.len(),
{
    reveal_strlit(" ");
    if ws.len() == 1 {
        let w = ws[0];
        assert(Seq::<char>::empty() + w =~= w);
        lemma_split_append_plain(Seq::<char>::empty(), w, ws_pred());
        assert(split_by(Seq::<char>::empty(), ws_pred()) == seq![Seq::<char>::empty()]);
        assert(seq![Seq::<char>::empty()].update(0, Seq::<char>::empty() + w) =~= ws);
    } else {
        let init = ws.drop_last();
        let w = ws.last();
        assert forall|i: int| 0 <= i < init.len() implies plain_word_shape(#[trigger] init[i]) by {
            assert(init[i] == ws[i]);
        }
        lemma_split_of_join(init);
        let j = join(init, " "@);
        let sp = j + " "@;
        assert(sp.drop_last() =~= j);
        assert(sp.last() == ' ');
        assert(ws_pred()(' '));
        assert(split_by(sp, ws_pred()) == split_by(j, ws_pred()).push(Seq::<char>::empty()));
        assert(plain_word_shape(ws[ws.len() - 1]));
        lemma_split_append_plain(sp, w, ws_pred());
        assert(join(ws, " "@) == j + " "@ + w);
        assert(split_by(j, ws_pred()).push(Seq::<char>::empty()).update(init.len() as int, Seq::<char>::empty() + w)
            =~= ws);
    }
}

proof fn lemma_non_empty_all(q: Seq<Seq<char>>)
    requires
        forall|i: int| 0 <= i < q.len() ==> (#[trigger] q[i]).len() > 0,
    ensures
        non_empty(q) == q,
    decreases q.len(),
{
    if q.len() > 0 {
        assert forall|i: int| 0 <= i < q.drop_last().len() implies (#[trigger] q.drop_last()[i]).len() > 0 by {
            assert(q.drop_last()[i] == q[i]);
        }
        lemma_non_empty_all(q.drop_last());
        assert(q.drop_last().push(q.last()) =~= q);
    }
}

/// Joining words that hold no whitespace by single spaces and splitting the
/// result at whitespace gives the same words back.
pub proof fn lemma_words_of_join(ws: Seq<Seq<char>>)
    requires
        forall|i: int| 0 <= i < ws.len() ==> plain_word_shape(#[trigger] ws[i]),
    ensures
        words(join(ws, " "@)) == ws,
{
    if ws.len() == 0 {
        let q = seq![Seq::<char>::empty()];
        assert(q.drop_last() =~= Seq::<Seq<char>>::empty());
        assert(q.last().len() == 0);
        assert(non_empty(q.drop_last()) == Seq::<Seq<char>>::empty());
        assert(split_by(join(ws, " "@), ws_pred()) == q);
        assert(non_empty(q) == non_empty(q.drop_last()));
        assert(ws =~= Seq::<Seq<char>>::empty());
    } else {
        lemma_split_of_join(ws);
        lemma_non_empty_all(ws);
    }
}

/// The words of a text are non-empty and hold no whitespace.
pub proof fn lemma_words_shape(s: Seq<char>)
    ensures
        forall|i: int| 0 <= i < words(s).len() ==> plain_word_shape(#[trigger] words(s)[i]),
{
    lemma_split_fields_avoid(s, ws_pred());
    lemma_non_empty_keeps(split_by(s, ws_pred()));
}

proof fn lemma_non_empty_keeps(q: Seq<Seq<char>>)
    requires
        forall|i: int, j: int| 0 <= i < q.len() && 0 <= j < q[i].len() ==> !ws_pred()(#[trigger] q[i][j]),
    ensures
        forall|i: int| 0 <= i < non_empty(q).len() ==> plain_word_shape(#[trigger] non_empty(q)[i]),
    decreases q.len(),
{
    if q.len() > 0 {
        let d = q.drop_last();
        assert forall|i: int, j: int| 0 <= i < d.len() && 0 <= j < d[i].len() implies !ws_pred()(#[trigger] d[i][j]) by {
            assert(d[i] == q[i]);
        }
        lemma_non_empty_keeps(d);
        let r = non_empty(q);
        assert forall|i: int| 0 <= i < r.len() implies plain_word_shape(#[trigger] r[i]) by {
            if i < non_empty(d).len() {
                assert(r[i] == non_empty(d)[i]);
            } else {
                assert(r[i] == q.last());
                assert forall|j: int| 0 <= j < r[i].len() implies !is_ws(#[trigger] r[i][j]) by {
                    assert(!ws_pred()(q[q.len() - 1][j]));
                }
            }
        }
    }
}

/// A split always yields at least one field.
pub proof fn lemma_split_nonempty(s: Seq<char>, pred: spec_fn(char) -> bool)
    ensures
        split_by(s, pred).len() >= 1,
    decreases s.len(),
{
    if s.len() > 0 {
        lemma_split_nonempty(s.drop_last(), pred);
    }
}

/// Which chars separate fields in a split.
pub enum Sep {
    /// Unicode whitespace.
    Whitespace,
    /// Exactly this char.
    Char(char),
    /// Whitespace or any char of the set.
    WhitespaceOr(Vec<char>),
}

/// Whitespace or any char of `set`.
pub open spec fn ws_or(set: Seq<char>) -> spec_fn(char) -> bool {
    |c: char| is_ws(c) || set.contains(c)
}

pub open spec fn sep_pred(sep: Sep) -> spec_fn(char) -> bool {
    match sep {
        Sep::Whitespace => ws_pred(),
        Sep::Char(d) => |c: char| c == d,
        Sep::WhitespaceOr(set) => ws_or(set@),
    }
}

/// Whether `c` separates fields under `sep`.
pub fn is_sep(sep: &Sep, c: char) -> (b: bool)
    ensures
        b == sep_pred(*sep)(c),
{
    match sep {
        Sep::Whitespace => is_whitespace(c),
        Sep::Char(d) => c == *d,
        Sep::WhitespaceOr(set) => is_whitespace(c) || has_char(set, c),
    }
}

/// Fields of `v` between separators (empty fields kept): `str::split` with a
/// char predicate.
pub fn split_fields(v: &[char], sep: &Sep) -> (out: Vec<Vec<char>>)
    ensures
        char_views(out@) == split_by(v@, sep_pred(*sep)),
        out@.len() >= 1,
{
    let ghost pred = sep_pred(*sep);
    let mut out: Vec<Vec<char>> = Vec::new();
    let mut cur: Vec<char> = Vec::new();
    let mut i: usize = 0;
    assert(v@.take(0) =~= Seq::<char>::empty());
    assert(char_views(out@).push(cur@) =~= seq![Seq::<char>::empty()]);
    while i < v.len()
        invariant
            i <= v@.len(),
            pred == sep_pred(*sep),
            char_views(out@).push(cur@) == split_by(v@.take(i as int), pred),
        decreases v@.len() - i,
    {
        proof {
            lemma_split_step(v@, pred, i as int);
        }
        let c = v[i];
        let ghost before = char_views(out@).push(cur@);
        if is_sep(sep, c) {
            let ghost prev = out@;
            let done = cur;
            out.push(done);
            cur = Vec::new();
            assert(char_views(out@) =~= char_views(prev).push(done@));
            assert(char_views(out@).push(cur@) =~= before.push(Seq::<char>::empty()));
        } else {
            let ghost prev_cur = cur@;
            cur.push(c);
            assert(char_views(out@).push(cur@) =~= before.update(
                before.len() - 1,
                before.last().push(c),
            ));
        }
        i = i + 1;
    }
    assert(v@.take(v@.len() as int) =~= v@);
    let ghost prev = out@;
    let last = cur;
    out.push(last);
    assert(char_views(out@) =~= char_views(prev).push(last@));
    out
}

/// The non-empty entries of `q`, in order.
pub fn keep_non_empty(q: &Vec<Vec<char>>) -> (out: Vec<Vec<char>>)
    ensures
        char_views(out@) == non_empty(char_views(q@)),
{
    let mut out: Vec<Vec<char>> = Vec::new();
    let mut i: usize = 0;
    let n = q.len();
    assert(char_views(q@.take(0)) =~= Seq::<Seq<char>>::empty());
    while i < n
        invariant
            n == q@.len(),
            i <= n,
            char_views(out@) == non_empty(char_views(q@.take(i as int))),
        decreases n - i,
    {
        assert(char_views(q@.take(i + 1)).drop_last() =~= char_views(q@.take(i as int)));
        assert(char_views(q@.take(i + 1)).last() == q@[i as int]@);
        let ghost prev = out@;
        if q[i].len() > 0 {
            let item = copy_chars(&q[i]);
            out.push(item);
            assert(char_views(out@) =~= char_views(prev).push(q@[i as int]@));
        }
        i = i + 1;
    }
    assert(q@.take(n as int) =~= q@);
    out
}

/// A fresh vector holding the chars of `v`.
pub fn copy_chars(v: &[char]) -> (out: Vec<char>)
    ensures
        out@ == v@,
{
    let out = slice_range(v, 0, v.len());
    assert(v@.subrange(0, v@.len() as int) =~= v@);
    out
}

/// `str::split_whitespace`.
pub fn split_words(v: &[char]) -> (out: Vec<Vec<char>>)
    ensures
        char_views(out@) == words(v@),
{
    let fields = split_fields(v, &Sep::Whitespace);
    keep_non_empty(&fields)
}

/// `parts` joined with `sep`: `slice::join`.
pub fn join_chars(parts: &Vec<Vec<char>>, sep: &[char]) -> (out: Vec<char>)
    ensures
        out@ == join(char_views(parts@), sep@),
{
    let mut out: Vec<char> = Vec::new();
    let mut i: usize = 0;
    assert(char_views(parts@).take(0) =~= Seq::<Seq<char>>::empty());
    while i < parts.len()
        invariant
            i <= parts@.len(),
            out@ == join(char_views(parts@).take(i as int), sep@),
        decreases parts@.len() - i,
    {
        let ghost prev = out@;
        let ghost pv = char_views(parts@);
        assert(pv.take(i + 1).drop_last() =~= pv.take(i as int));
        if i > 0 {
            append_chars(&mut out, sep);
        }
        append_chars(&mut out, &parts[i]);
        proof {
            if i == 0 {
                assert(pv.take(1) =~= seq![pv[0]]);
                assert(out@ =~= pv[0]);
            } else {
                assert(out@ =~= prev + sep@ + pv[i as int]);
            }
        }
        i = i + 1;
    }
    assert(char_views(parts@).take(parts@.len() as int) =~= char_views(parts@));
    out
}

/// Appends all of `extra` to `out`.
pub fn append_chars(out: &mut Vec<char>, extra: &[char])
    ensures
        final(out)@ == old(out)@ + extra@,
{
    let mut k: usize = 0;
    let ghost start = out@;
    while k < extra.len()
        invariant
            k <= extra@.len(),
            out@ == start + extra@.take(k as int),
        decreases extra@.len() - k,
    {
        out.push(extra[k]);
        assert(start + extra@.take(k + 1) =~= (start + extra@.take(k as int)).push(extra@[k as int]));
        k = k + 1;
    }
    assert(extra@.take(extra@.len() as int) =~= extra@);
}

/// Appends the text `lit` to `out`.
pub fn append_str(out: &mut Vec<char>, lit: &str)
    ensures
        final(out)@ == old(out)@ + lit@,
{
    let p = chars_of(lit);
    append_chars(out, &p);
}

/// `str::lines` on a char sequence.
pub fn lines_of(v: &[char]) -> (out: Vec<Vec<char>>)
    ensures
        char_views(out@) == lines(v@),
{
    let pieces = split_fields(v, &Sep::Char('\n'));
    proof {
        assert(sep_pred(Sep::Char('\n')) == nl_pred());
    }
    let n = pieces.len();
    let ghost pv = char_views(pieces@);
    let mut out: Vec<Vec<char>> = Vec::new();
    let mut i: usize = 0;
    while i + 1 < n
        invariant
            n == pieces@.len(),
            n >= 1,
            i + 1 <= n,
            pv == char_views(pieces@),
            char_views(out@) == pv.take(i as int).map_values(|p: Seq<char>| strip_cr(p)),
        decreases n - i,
    {
        let piece = &pieces[i];
        let len = piece.len();
        let kept = if len > 0 && piece[len - 1] == '\r' {
            slice_range(piece, 0, len - 1)
        } else {
            copy_chars(piece)
        };
        proof {
            if len > 0 && piece@[len - 1] == '\r' {
                assert(piece@.subrange(0, len - 1) =~= piece@.drop_last());
            }
        }
        let ghost prev = out@;
        out.push(kept);
        assert(char_views(out@) =~= char_views(prev).push(strip_cr(pv[i as int])));
        assert(pv.take(i + 1).map_values(|p: Seq<char>| strip_cr(p)) =~= pv.take(i as int).map_values(
            |p: Seq<char>| strip_cr(p),
        ).push(strip_cr(pv[i as int])));
        i = i + 1;
    }
    assert(pv.drop_last() =~= pv.take(n - 1));
    let last = &pieces[n - 1];
    if last.len() > 0 {
        let ghost prev = out@;
        let item = copy_chars(last);
        out.push(item);
        assert(char_views(out@) =~= char_views(prev).push(pv.last()));
    }
    out
}

/// Text before the first `c` (all of `s` when `c` does not occur).
pub open spec fn before_char(s: Seq<char>, c: char) -> Seq<char>
    decreases s.len(),
{
    if s.len() == 0 {
        s
    } else if s[0] == c {
        Seq::empty()
    } else {
        seq![s[0]] + before_char(s.drop_first(), c)
    }
}

/// Text after the first `c` (empty when `c` does not occur).
pub open spec fn after_char(s: Seq<char>, c: char) -> Seq<char>
    decreases s.len(),
{
    if s.len() == 0 {
        s
    } else if s[0] == c {
        s.drop_first()
    } else {
        after_char(s.drop_first(), c)
    }
}

proof fn lemma_split_once(s: Seq<char>, c: char, i: int)
    requires
        0 <= i <= s.len(),
        forall|j: int| 0 <= j < i ==> s[j] != c,
        i < s.len() ==> s[i] == c,
    ensures
        before_char(s, c) == s.take(i),
        i < s.len() ==> after_char(s, c) == s.skip(i + 1),
    decreases i,
{
    if i > 0 {
        lemma_split_once(s.drop_first(), c, i - 1);
        assert(s.take(i) =~= seq![s[0]] + s.drop_first().take(i - 1));
        if i < s.len() {
            assert(s.drop_first().skip(i) =~= s.skip(i + 1));
        }
    } else if s.len() == 0 {
        assert(s.take(0) =~= s);
    } else {
        assert(s.take(0) =~= Seq::<char>::empty());
        assert(s.drop_first() =~= s.skip(1));
    }
}

/// `str::split_once(c)`.
pub fn split_once_char(v: &[char], c: char) -> (r: Option<(Vec<char>, Vec<char>)>)
    ensures
        r is None <==> !v@.contains(c),
        r matches Some((a, b)) ==> a@ == before_char(v@, c) && b@ == after_char(v@, c),
{
    let mut i: usize = 0;
    while i < v.len() && v[i] != c
        invariant
            i <= v@.len(),
            forall|j: int| 0 <= j < i ==> v@[j] != c,
        decreases v@.len() - i,
    {
        i = i + 1;
    }
    proof {
        lemma_split_once(v@, c, i as int);
    }
    if i == v.len() {
        assert(!v@.contains(c));
        None
    } else {
        assert(v@.contains(c)) by {
            assert(v@[i as int] == c);
        }
        let a = slice_range(v, 0, i);
        let b = slice_range(v, i + 1, v.len());
        assert(v@.subrange(0, i as int) =~= v@.take(i as int));
        assert(v@.subrange(i + 1, v@.len() as int) =~= v@.skip(i + 1));
        Some((a, b))
    }
}

/// A copy of every string of `v`.
pub fn clone_strings(v: &Vec<String>) -> (out: Vec<String>)
    ensures
        out@ == v@,
{
    let mut out: Vec<String> = Vec::new();
    let mut i: usize = 0;
    while i < v.len()
        invariant
            i <= v@.len(),
            out@ == v@.take(i as int),
        decreases v@.len() - i,
    {
        let s = v[i].clone();
        out.push(s);
        assert(out@ =~= v@.take(i + 1));
        i = i + 1;
    }
    assert(v@.take(v@.len() as int) =~= v@);
    out
}

/// The chars of every string of `v`.
pub fn chars_all(v: &Vec<String>) -> (out: Vec<Vec<char>>)
    ensures
        char_views(out@) == views(v@),
{
    let mut out: Vec<Vec<char>> = Vec::new();
    let mut i: usize = 0;
    while i < v.len()
        invariant
            i <= v@.len(),
            out@.len() == i,
            forall|k: int| 0 <= k < i ==> out@[k]@ == v@[k]@,
        decreases v@.len() - i,
    {
        out.push(chars_of(v[i].as_str()));
        i = i + 1;
    }
    assert(char_views(out@) =~= views(v@));
    out
}

/// A `String` for every char vector of `v`.
pub fn strings_of(v: &Vec<Vec<char>>) -> (out: Vec<String>)
    ensures
        views(out@) == char_views(v@),
{
    let mut out: Vec<String> = Vec::new();
    let mut i: usize = 0;
    while i < v.len()
        invariant
            i <= v@.len(),
            out@.len() == i,
            forall|k: int| 0 <= k < i ==> out@[k]@ == v@[k]@,
        decreases v@.len() - i,
    {
        out.push(string_of(&v[i]));
        i = i + 1;
    }
    assert(views(out@) =~= char_views(v@));
    out
}

// ---------------------------------------------------------------------------
// Decimal numerals.

pub open spec fn digits() -> Seq<char> {
    seq!['0', '1', '2', '3', '4', '5', '6', '7', '8', '9']
}

/// The decimal numeral of `n`, without sign or leading zeros.
pub open spec fn decimal(n: nat) -> Seq<char>
    decreases n,
{
    if n < 10 {
        seq![digits()[n as int]]
    } else {
        decimal(n / 10).push(digits()[(n % 10) as int])
    }
}

/// Appends the decimal numeral of `n`.
pub fn push_decimal(out: &mut Vec<char>, n: u64)
    ensures
        final(out)@ == old(out)@ + decimal(n as nat),
    decreases n,
{
    let ds = ['0', '1', '2', '3', '4', '5', '6', '7', '8', '9'];
    if n >= 10 {
        push_decimal(out, n / 10);
    }
    let d = (n % 10) as usize;
    let ghost before = out@;
    out.push(ds[d]);
    assert(ds@ == digits());
    proof {
        if n < 10 {
            assert(n % 10 == n);
        }
    }
}

// ---------------------------------------------------------------------------
// Trimming twice.

/// Trimming the start leaves a suffix that does not start with a trimmed
/// char.
pub proof fn lemma_trim_start_shape(s: Seq<char>, pred: spec_fn(char) -> bool)
    ensures
        trim_start_by(s, pred).len() > 0 ==> !pred(trim_start_by(s, pred)[0]),
        trim_start_by(s, pred).is_suffix_of(s),
    decreases s.len(),
{
    if s.len() > 0 && pred(s[0]) {
        lemma_trim_start_shape(s.drop_first(), pred);
        let t = trim_start_by(s.drop_first(), pred);
        assert(s.subrange(s.len() - t.len(), s.len() as int) =~= s.drop_first().subrange(
            s.drop_first().len() - t.len(),
            s.drop_first().len() as int,
        ));
    } else {
        assert(s.subrange(0, s.len() as int) =~= s);
    }
}

/// Trimming the end leaves a prefix that does not end with a trimmed char.
pub proof fn lemma_trim_end_shape(s: Seq<char>, pred: spec_fn(char) -> bool)
    ensures
        trim_end_by(s, pred).len() > 0 ==> !pred(trim_end_by(s, pred).last()),
        trim_end_by(s, pred).is_prefix_of(s),
    decreases s.len(),
{
    if s.len() > 0 && pred(s.last()) {
        lemma_trim_end_shape(s.drop_last(), pred);
        let t = trim_end_by(s.drop_last(), pred);
        assert(s.subrange(0, t.len() as int) =~= s.drop_last().subrange(0, t.len() as int));
    } else {
        assert(s.subrange(0, s.len() as int) =~= s);
    }
}

/// Trimming what is already trimmed changes nothing.
pub proof fn lemma_trim_idempotent(s: Seq<char>)
    ensures
        trim_ws(trim_ws(s)) == trim_ws(s),
{
    let pred = ws_pred();
    let u = trim_start_by(s, pred);
    let t = trim_end_by(u, pred);
    lemma_trim_start_shape(s, pred);
    lemma_trim_end_shape(u, pred);
    if t.len() > 0 {
        assert(t[0] == u.subrange(0, t.len() as int)[0]);
        assert(trim_start_by(t, pred) == t);
        assert(trim_end_by(t, pred) == t);
    } else {
        assert(trim_start_by(t, pred) == t);
        assert(trim_end_by(t, pred) == t);
    }
}

/// `s` with every leading repetition of `p` removed.
pub open spec fn strip_prefix_all(s: Seq<char>, p: Seq<char>) -> Seq<char>
    decreases s.len(),
{
    if p.len() > 0 && starts_with(s, p) {
        strip_prefix_all(s.skip(p.len() as int), p)
    } else {
        s
    }
}

/// `s` with every leading repetition of `p` removed.
pub fn strip_prefix_all_exec(v: &[char], p: &[char]) -> (out: Vec<char>)
    ensures
        out@ == strip_prefix_all(v@, p@),
{
    let mut rest = copy_chars(v);
    let mut more = p.len() > 0 && starts_with_exec(&rest, p);
    assert(rest@ == v@);
    while more
        invariant
            strip_prefix_all(rest@, p@) == strip_prefix_all(v@, p@),
            more == (p@.len() > 0 && starts_with(rest@, p@)),
        decreases rest@.len(),
    {
        let next = slice_range(&rest, p.len(), rest.len());
        assert(next@ =~= rest@.skip(p@.len() as int));
        rest = next;
        more = starts_with_exec(&rest, p);
    }
    rest
}

} // verus!
