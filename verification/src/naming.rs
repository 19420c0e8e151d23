use vstd::prelude::*;

use crate::DownloadTask;

verus! {

/// Longest filename a URL is turned into.
pub const MAX_FILENAME_LENGTH: usize = 100;

/// Query and fragment begin at the first of these.
pub open spec fn is_cut_char(c: char) -> bool {
    c == '?' || c == '#'
}

/// The characters kept verbatim in a derived filename: letters, digits and
/// the underscore; the dot too where `allow_dot` holds.
pub open spec fn allowed_char(c: char, allow_dot: bool) -> bool {
    ||| ('a' as u32) <= (c as u32) <= ('z' as u32)
    ||| ('A' as u32) <= (c as u32) <= ('Z' as u32)
    ||| ('0' as u32) <= (c as u32) <= ('9' as u32)
    ||| c == '_'
    ||| (allow_dot && c == '.')
}

/// The first index at or after `k` holding a query or fragment delimiter,
/// or the length when none follows.
pub open spec fn first_cut_at_or_after(s: Seq<char>, k: int) -> int
    decreases s.len() - k,
{
    if k < 0 || k >= s.len() {
        s.len() as int
    } else if is_cut_char(s[k]) {
        k
    } else {
        first_cut_at_or_after(s, k + 1)
    }
}

/// What stands after the last slash: the whole string when it holds none,
/// the empty sequence when it ends in one.
pub open spec fn last_component(s: Seq<char>) -> Seq<char>
    decreases s.len(),
{
    if s.len() == 0 {
        Seq::empty()
    } else if s.last() == '/' {
        Seq::empty()
    } else {
        last_component(s.drop_last()).push(s.last())
    }
}

/// A scheme separator stands at `k`.
pub open spec fn separator_at(s: Seq<char>, k: int) -> bool {
    &&& 0 <= k
    &&& k + 3 <= s.len()
    &&& s[k] == ':'
    &&& s[k + 1] == '/'
    &&& s[k + 2] == '/'
}

/// The first index at or after `k` where a scheme separator stands, or the
/// length when none follows.
pub open spec fn first_separator_at_or_after(s: Seq<char>, k: int) -> int
    decreases s.len() - k,
{
    if k < 0 || k + 3 > s.len() {
        s.len() as int
    } else if separator_at(s, k) {
        k
    } else {
        first_separator_at_or_after(s, k + 1)
    }
}

/// What stands between the first scheme separator and the next one (or the
/// end), or nothing when the string holds no separator.
pub open spec fn after_scheme(s: Seq<char>) -> Option<Seq<char>> {
    let a = first_separator_at_or_after(s, 0);
    if a == s.len() {
        None
    } else {
        Some(s.subrange(a + 3, first_separator_at_or_after(s, a + 3)))
    }
}

/// The source a filename falls back to when the cleaned URL ends in a
/// slash: what follows the scheme, or a stand-in name.
pub open spec fn fallback_source(s: Seq<char>) -> Seq<char> {
    match after_scheme(s) {
        Some(seg) => seg,
        None => "temp"@,
    }
}

/// `s` from `k` on, with every maximal run of disallowed characters
/// replaced by one underscore; `prev_bad` tells whether a run is already
/// open just before `k`.
pub open spec fn collapsed_from(s: Seq<char>, k: int, prev_bad: bool, allow_dot: bool) -> Seq<char>
    decreases s.len() - k,
{
    if k < 0 || k >= s.len() {
        Seq::empty()
    } else if allowed_char(s[k], allow_dot) {
        seq![s[k]] + collapsed_from(s, k + 1, false, allow_dot)
    } else if prev_bad {
        collapsed_from(s, k + 1, true, allow_dot)
    } else {
        seq!['_'] + collapsed_from(s, k + 1, true, allow_dot)
    }
}

/// `s` with every maximal run of disallowed characters replaced by one
/// underscore.
pub open spec fn collapsed(s: Seq<char>, allow_dot: bool) -> Seq<char> {
    collapsed_from(s, 0, false, allow_dot)
}

/// The first index at or after `k` holding anything but an underscore, or
/// the length when none follows.
pub open spec fn first_kept_at_or_after(s: Seq<char>, k: int) -> int
    decreases s.len() - k,
{
    if k < 0 || k >= s.len() {
        s.len() as int
    } else if s[k] != '_' {
        k
    } else {
        first_kept_at_or_after(s, k + 1)
    }
}

/// The end of `s` with every trailing underscore before `k` dropped.
pub open spec fn last_kept_before(s: Seq<char>, k: int) -> int
    decreases k,
{
    if k <= 0 {
        0
    } else if k > s.len() {
        s.len() as int
    } else if s[k - 1] != '_' {
        k
    } else {
        last_kept_before(s, k - 1)
    }
}

/// `s` with leading and trailing underscores removed.
pub open spec fn trimmed_underscores(s: Seq<char>) -> Seq<char> {
    let a = first_kept_at_or_after(s, 0);
    if a == s.len() {
        Seq::empty()
    } else {
        s.subrange(a, last_kept_before(s, s.len() as int))
    }
}

/// The filename derived from a URL: drop the query and fragment, take the
/// last path component — or, when that is empty, what follows the scheme —
/// collapse every run of foreign characters to one underscore (keeping
/// dots only in the path-component case), trim underscores at both ends,
/// and cap the length.
pub open spec fn sanitize_spec(url: Seq<char>) -> Seq<char> {
    let clean = url.subrange(0, first_cut_at_or_after(url, 0));
    let base = last_component(clean);
    let collapsed_name = if base.len() == 0 {
        collapsed(fallback_source(url), false)
    } else {
        collapsed(base, true)
    };
    let trimmed = trimmed_underscores(collapsed_name);
    if trimmed.len() > MAX_FILENAME_LENGTH {
        trimmed.take(MAX_FILENAME_LENGTH as int)
    } else {
        trimmed
    }
}

/// Every character of the string, in order.
pub fn str_chars(s: &str) -> (r: Vec<char>)
    ensures
        r@ == s@,
{
    let n = s.unicode_len();
    let mut r: Vec<char> = Vec::new();
    let mut i: usize = 0;
    while i < n
        invariant
            i <= n,
            n == s@.len(),
            r@ =~= s@.take(i as int),
        decreases n - i,
    {
        let c = s.get_char(i);
        r.push(c);
        i = i + 1;
    }
    proof {
        assert(s@.take(n as int) =~= s@);
    }
    r
}

/// Relies on `String`'s `FromIterator` over `char`: collecting characters
/// builds the string of exactly those characters in order.
#[verifier::external_body]
pub(crate) fn chars_to_string(v: &Vec<char>) -> (r: String)
    ensures
        r@ == v@,
{
    v.iter().collect()
}

fn is_allowed(c: char, allow_dot: bool) -> (r: bool)
    ensures
        r == allowed_char(c, allow_dot),
{
    let u = c as u32;
    (97 <= u && u <= 122) || (65 <= u && u <= 90) || (48 <= u && u <= 57) || c == '_' || (allow_dot
        && c == '.')
}

/// Index where the query or fragment begins, or the length.
fn find_params_cut(url: &Vec<char>) -> (cut: usize)
    ensures
        cut as int == first_cut_at_or_after(url@, 0),
        cut <= url@.len(),
{
    let n = url.len();
    let mut cut: usize = 0;
    while cut < n && !(url[cut] == '?' || url[cut] == '#')
        invariant
            cut <= n,
            n == url@.len(),
            first_cut_at_or_after(url@, 0) == first_cut_at_or_after(url@, cut as int),
        decreases n - cut,
    {
        cut = cut + 1;
    }
    cut
}

/// The last slash-separated component of `url`'s first `cut` characters.
fn base_component(url: &Vec<char>, cut: usize) -> (base: Vec<char>)
    requires
        cut <= url@.len(),
    ensures
        base@ == last_component(url@.subrange(0, cut as int)),
{
    let ghost clean = url@.subrange(0, cut as int);
    let mut base: Vec<char> = Vec::new();
    let mut j: usize = 0;
    while j < cut
        invariant
            j <= cut,
            cut <= url@.len(),
            clean == url@.subrange(0, cut as int),
            base@ == last_component(clean.take(j as int)),
        decreases cut - j,
    {
        proof {
            assert(clean.take(j as int + 1).drop_last() =~= clean.take(j as int));
            assert(clean.take(j as int + 1).last() == url@[j as int]);
        }
        if url[j] == '/' {
            base.clear();
        } else {
            base.push(url[j]);
        }
        j = j + 1;
    }
    proof {
        assert(clean.take(cut as int) =~= clean);
    }
    base
}

/// What the filename falls back to: the characters between the first
/// scheme separator and the next, or a stand-in name when the URL holds
/// no separator.
fn scheme_segment(url: &Vec<char>) -> (seg: Vec<char>)
    ensures
        seg@ == fallback_source(url@),
{
    let n = url.len();
    let mut a: usize = 0;
    while n >= 3 && a <= n - 3 && !(url[a] == ':' && url[a + 1] == '/' && url[a + 2] == '/')
        invariant
            a <= n,
            n == url@.len(),
            first_separator_at_or_after(url@, 0) == first_separator_at_or_after(url@, a as int),
        decreases n - a,
    {
        a = a + 1;
    }
    if n < 3 || a > n - 3 {
        return str_chars("temp");
    }
    let start = a + 3;
    let mut b: usize = start;
    while b <= n - 3 && !(url[b] == ':' && url[b + 1] == '/' && url[b + 2] == '/')
        invariant
            start <= b <= n,
            n == url@.len(),
            n >= 3,
            first_separator_at_or_after(url@, start as int) == first_separator_at_or_after(
                url@,
                b as int,
            ),
        decreases n - b,
    {
        b = b + 1;
    }
    let end = if b <= n - 3 {
        b
    } else {
        n
    };
    let mut seg: Vec<char> = Vec::new();
    let mut j: usize = start;
    while j < end
        invariant
            start <= j <= end,
            end <= n,
            n == url@.len(),
            seg@ =~= url@.subrange(start as int, j as int),
        decreases end - j,
    {
        seg.push(url[j]);
        j = j + 1;
    }
    seg
}

/// Collapse every maximal run of disallowed characters to one underscore.
fn collapse(src: &Vec<char>, allow_dot: bool) -> (out: Vec<char>)
    ensures
        out@ == collapsed(src@, allow_dot),
{
    let n = src.len();
    let mut out: Vec<char> = Vec::new();
    let mut bad = false;
    let mut k: usize = 0;
    while k < n
        invariant
            k <= n,
            n == src@.len(),
            collapsed(src@, allow_dot) == out@ + collapsed_from(src@, k as int, bad, allow_dot),
        decreases n - k,
    {
        let c = src[k];
        if is_allowed(c, allow_dot) {
            out.push(c);
            bad = false;
        } else {
            if !bad {
                out.push('_');
            }
            bad = true;
        }
        k = k + 1;
        proof {
            assert(collapsed(src@, allow_dot) == out@ + collapsed_from(
                src@,
                k as int,
                bad,
                allow_dot,
            ));
        }
    }
    proof {
        assert(out@ + collapsed_from(src@, n as int, bad, allow_dot) =~= out@);
    }
    out
}

/// Drop leading and trailing underscores.
fn trim_underscores(src: &Vec<char>) -> (out: Vec<char>)
    ensures
        out@ == trimmed_underscores(src@),
{
    let n = src.len();
    let mut a: usize = 0;
    while a < n && src[a] == '_'
        invariant
            a <= n,
            n == src@.len(),
            first_kept_at_or_after(src@, 0) == first_kept_at_or_after(src@, a as int),
        decreases n - a,
    {
        a = a + 1;
    }
    if a == n {
        let out: Vec<char> = Vec::new();
        return out;
    }
    let mut b: usize = n;
    while b > a + 1 && src[b - 1] == '_'
        invariant
            a + 1 <= b <= n,
            n == src@.len(),
            a as int == first_kept_at_or_after(src@, 0),
            a < n,
            src@[a as int] != '_',
            last_kept_before(src@, n as int) == last_kept_before(src@, b as int),
        decreases b,
    {
        b = b - 1;
    }
    let mut out: Vec<char> = Vec::new();
    let mut j: usize = a;
    while j < b
        invariant
            a <= j <= b <= n,
            n == src@.len(),
            out@ =~= src@.subrange(a as int, j as int),
        decreases b - j,
    {
        out.push(src[j]);
        j = j + 1;
    }
    out
}

/// Turn a URL's characters into a safe filename, as `sanitize_spec` says.
pub fn sanitize_chars(url: &Vec<char>) -> (r: Vec<char>)
    ensures
        r@ == sanitize_spec(url@),
{
    let cut = find_params_cut(url);
    let base = base_component(url, cut);
    let collapsed_name = if base.len() == 0 {
        let seg = scheme_segment(url);
        collapse(&seg, false)
    } else {
        collapse(&base, true)
    };
    let mut trimmed = trim_underscores(&collapsed_name);
    if trimmed.len() > MAX_FILENAME_LENGTH {
        trimmed.truncate(MAX_FILENAME_LENGTH);
    }
    trimmed
}

impl DownloadTask {
    /// Derive a filename from the URL, per `sanitize_spec`: query and
    /// fragment dropped, the last path component kept (or what follows the
    /// scheme when that component is empty), foreign characters collapsed
    /// to underscores, underscores trimmed at both ends, length capped.
    pub fn sanitize_filename(url: &str) -> (r: String)
        ensures
            r@ == sanitize_spec(url@),
    {
        let chars = str_chars(url);
        let sanitized = sanitize_chars(&chars);
        chars_to_string(&sanitized)
    }
}

} // verus!
