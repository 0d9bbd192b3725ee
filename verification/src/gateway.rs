//! Bridge between the CGI-style output of a `git http-backend` subprocess
//! and a plain HTTP response.
//!
//! The subprocess writes a header block terminated by a blank line (`\n\n`
//! or `\r\n\r\n`, whichever comes first) followed by the response body.
//! This module finds that boundary, interprets a `Status:` line, keeps the
//! other well-formed `key: value` lines, and assembles the response status,
//! header list and body.  Header text is handled as raw bytes; case folding
//! and whitespace use their ASCII meaning.

use vstd::prelude::*;
use vstd::slice::{slice_subrange, slice_to_vec};
use vstd::string::StringExecFns;

verus! {

/// The environment a gateway subprocess runs with: the project root, the
/// export-all flag, and the request's path, method, query string, and
/// content type when one was sent.  No other request header is forwarded.
pub fn gateway_env(
    project_root: &str,
    path: &str,
    method: &str,
    query: &str,
    content_type: Option<&str>,
) -> (r: Vec<(String, String)>)
    ensures
        r@.len() == (if content_type is Some {
            6int
        } else {
            5int
        }),
        r@[0].0@ == "GIT_PROJECT_ROOT"@ && r@[0].1@ == project_root@,
        r@[1].0@ == "GIT_HTTP_EXPORT_ALL"@ && r@[1].1@.len() == 0,
        r@[2].0@ == "PATH_INFO"@ && r@[2].1@ == path@,
        r@[3].0@ == "REQUEST_METHOD"@ && r@[3].1@ == method@,
        r@[4].0@ == "QUERY_STRING"@ && r@[4].1@ == query@,
        content_type matches Some(ct) ==> r@[5].0@ == "CONTENT_TYPE"@ && r@[5].1@ == ct@,
{
    let mut v: Vec<(String, String)> = Vec::new();
    v.push((String::from_str("GIT_PROJECT_ROOT"), String::from_str(project_root)));
    v.push((String::from_str("GIT_HTTP_EXPORT_ALL"), String::new()));
    v.push((String::from_str("PATH_INFO"), String::from_str(path)));
    v.push((String::from_str("REQUEST_METHOD"), String::from_str(method)));
    v.push((String::from_str("QUERY_STRING"), String::from_str(query)));
    match content_type {
        Some(ct) => {
            v.push((String::from_str("CONTENT_TYPE"), String::from_str(ct)));
        },
        None => {},
    }
    v
}

/// A parsed HTTP response: status code, header pairs, body bytes.
pub struct HttpReply {
    pub status: u16,
    pub headers: Vec<(Vec<u8>, Vec<u8>)>,
    pub body: Vec<u8>,
}

/// View of a list of byte vectors as a sequence of byte sequences.
pub open spec fn lines_view(ls: Seq<Vec<u8>>) -> Seq<Seq<u8>> {
    ls.map_values(|v: Vec<u8>| v@)
}

/// View of a list of header pairs as a sequence of byte-sequence pairs.
pub open spec fn pairs_view(hs: Seq<(Vec<u8>, Vec<u8>)>) -> Seq<(Seq<u8>, Seq<u8>)> {
    hs.map_values(|p: (Vec<u8>, Vec<u8>)| (p.0@, p.1@))
}

/// First index at or after `i` where `pat` occurs in `s`.
pub open spec fn find_from(s: Seq<u8>, pat: Seq<u8>, i: int) -> Option<int>
    decreases s.len() - i,
{
    if pat.len() == 0 || i < 0 || i + pat.len() > s.len() {
        None
    } else if s.subrange(i, i + pat.len()) == pat {
        Some(i)
    } else {
        find_from(s, pat, i + 1)
    }
}

/// First index where `pat` occurs in `s`.
pub open spec fn find_sub(s: Seq<u8>, pat: Seq<u8>) -> Option<int> {
    find_from(s, pat, 0)
}

proof fn lemma_find_from_bounds(s: Seq<u8>, pat: Seq<u8>, i: int, j: int)
    requires
        find_from(s, pat, i) == Some(j),
    ensures
        i <= j,
        j + pat.len() <= s.len(),
    decreases s.len() - i,
{
    if !(pat.len() == 0 || i < 0 || i + pat.len() > s.len())
        && !(s.subrange(i, i + pat.len()) == pat) {
        lemma_find_from_bounds(s, pat, i + 1, j);
    }
}

/// Whether `s` matches `pat` starting at `i`.
fn match_at(s: &[u8], pat: &[u8], i: usize) -> (r: bool)
    requires
        i + pat@.len() <= s@.len(),
    ensures
        r == (s@.subrange(i as int, i as int + pat@.len()) == pat@),
{
    let n: usize = s.len();
    let m: usize = pat.len();
    let mut k: usize = 0;
    while k < m
        invariant
            k <= m,
            m == pat@.len(),
            n == s@.len(),
            i + m <= n,
            forall|t: int| 0 <= t < k ==> s@[i + t] == pat@[t],
        decreases m - k,
    {
        if s[i + k] != pat[k] {
            proof {
                let sub = s@.subrange(i as int, i as int + pat@.len());
                assert(sub[k as int] == s@[i + k]);
            }
            return false;
        }
        k = k + 1;
    }
    proof {
        assert(s@.subrange(i as int, i as int + pat@.len()) =~= pat@);
    }
    true
}

/// First occurrence of `pat` in `s`, scanning left to right.
fn find_bytes(s: &[u8], pat: &[u8]) -> (r: Option<usize>)
    requires
        pat@.len() >= 1,
    ensures
        r matches Some(j) ==> find_sub(s@, pat@) == Some(j as int),
        r is None ==> find_sub(s@, pat@) is None,
{
    let n: usize = s.len();
    let m: usize = pat.len();
    if m > n {
        return None;
    }
    let mut i: usize = 0;
    while i <= n - m
        invariant
            m >= 1,
            m <= n,
            n == s@.len(),
            m == pat@.len(),
            i <= n - m + 1,
            find_from(s@, pat@, 0) == find_from(s@, pat@, i as int),
        decreases n - i,
    {
        if match_at(s, pat, i) {
            return Some(i);
        }
        i = i + 1;
    }
    None
}

/// First occurrence of the byte `b` in `s` at or after `from`.
fn find_byte_from(s: &[u8], b: u8, from: usize) -> (r: Option<usize>)
    requires
        from <= s@.len(),
    ensures
        r matches Some(j) ==> from <= j && (j as int) < s@.len()
            && find_from(s@, seq![b], from as int) == Some(j as int),
        r is None ==> find_from(s@, seq![b], from as int) is None,
{
    let n: usize = s.len();
    let mut i: usize = from;
    while i < n
        invariant
            from <= i <= n,
            n == s@.len(),
            find_from(s@, seq![b], from as int) == find_from(s@, seq![b], i as int),
        decreases n - i,
    {
        if s[i] == b {
            proof {
                assert(s@.subrange(i as int, i as int + 1) =~= seq![b]);
            }
            return Some(i);
        }
        proof {
            assert(s@.subrange(i as int, i as int + 1) =~= seq![s@[i as int]]);
            assert(seq![s@[i as int]][0] == s@[i as int]);
            assert(seq![b][0] == b);
        }
        i = i + 1;
    }
    None
}

/// ASCII whitespace: the ASCII characters that `char::is_whitespace` accepts.
pub open spec fn is_ws(b: u8) -> bool {
    b == 32 || (9 <= b && b <= 13)
}

/// First index at or after `i` holding a byte that is not ASCII whitespace.
pub open spec fn non_ws_from(s: Seq<u8>, i: int) -> int
    decreases s.len() - i,
{
    if 0 <= i && i < s.len() && is_ws(s[i]) {
        non_ws_from(s, i + 1)
    } else {
        i
    }
}

/// First index at or after `i` holding an ASCII whitespace byte.
pub open spec fn ws_from(s: Seq<u8>, i: int) -> int
    decreases s.len() - i,
{
    if 0 <= i && i < s.len() && !is_ws(s[i]) {
        ws_from(s, i + 1)
    } else {
        i
    }
}

/// End of `s[lo..hi]` after dropping trailing ASCII whitespace.
pub open spec fn ws_end(s: Seq<u8>, lo: int, hi: int) -> int
    decreases hi - lo,
{
    if 0 <= lo && lo < hi && hi <= s.len() && is_ws(s[hi - 1]) {
        ws_end(s, lo, hi - 1)
    } else {
        hi
    }
}

/// `s[lo..hi]` with ASCII whitespace removed from both ends.
pub open spec fn trim_ws(s: Seq<u8>, lo: int, hi: int) -> Seq<u8> {
    let b = ws_end(s, lo, hi);
    let a = non_ws_from(s, lo);
    if a < b {
        s.subrange(a, b)
    } else {
        Seq::empty()
    }
}

/// A line without its terminating newline, with one trailing `\r` dropped.
pub open spec fn strip_cr(l: Seq<u8>) -> Seq<u8> {
    if l.len() > 0 && l[l.len() - 1] == 13 {
        l.subrange(0, l.len() - 1)
    } else {
        l
    }
}

/// The lines of `s` starting at `p`, split at `\n` as `str::lines` does:
/// each `\n` ends a line, a `\r` before the `\n` is dropped, and a final
/// newline does not open an empty last line.
pub open spec fn split_lines_from(s: Seq<u8>, p: int) -> Seq<Seq<u8>>
    decreases s.len() - p,
{
    if p < 0 || p >= s.len() {
        Seq::empty()
    } else {
        match find_from(s, seq![10u8], p) {
            Some(j) => if p <= j && j < s.len() {
                seq![strip_cr(s.subrange(p, j))] + split_lines_from(s, j + 1)
            } else {
                Seq::empty()
            },
            None => seq![s.subrange(p, s.len() as int)],
        }
    }
}

/// The lines of the header block.
pub open spec fn split_lines(s: Seq<u8>) -> Seq<Seq<u8>> {
    split_lines_from(s, 0)
}

/// Where the CGI header block ends: after the first blank line, taking
/// whichever of `\n\n` and `\r\n\r\n` occurs first.
pub open spec fn header_end(out: Seq<u8>) -> Option<int> {
    match (find_sub(out, seq![10u8, 10u8]), find_sub(out, seq![13u8, 10u8, 13u8, 10u8])) {
        (Some(a), Some(b)) => if a < b {
            Some(a + 2)
        } else {
            Some(b + 4)
        },
        (Some(a), None) => Some(a + 2),
        (None, Some(b)) => Some(b + 4),
        (None, None) => None,
    }
}

/// ASCII lower-casing of one byte.
pub open spec fn lower(b: u8) -> u8 {
    if 65 <= b && b <= 90 {
        (b + 32) as u8
    } else {
        b
    }
}

/// Whether the line begins with `Status:` up to ASCII case.
pub open spec fn is_status_line(l: Seq<u8>) -> bool {
    &&& l.len() >= 7
    &&& lower(l[0]) == 115
    &&& lower(l[1]) == 116
    &&& lower(l[2]) == 97
    &&& lower(l[3]) == 116
    &&& lower(l[4]) == 117
    &&& lower(l[5]) == 115
    &&& l[6] == 58
}

/// The second whitespace-separated token of `l` (empty if there is none).
pub open spec fn second_token(l: Seq<u8>) -> Seq<u8> {
    let a = non_ws_from(l, 0);
    let b = ws_from(l, a);
    let c = non_ws_from(l, b);
    let d = ws_from(l, c);
    l.subrange(c, d)
}

/// Whether `b` is an ASCII digit.
pub open spec fn is_digit(b: u8) -> bool {
    48 <= b && b <= 57
}

/// Numeric value of a three-digit token.
pub open spec fn code_val(t: Seq<u8>) -> int {
    (t[0] - 48) * 100 + (t[1] - 48) * 10 + (t[2] - 48)
}

/// A status token parses as a code when it is exactly three ASCII digits
/// with value at least 100 — the same tokens `http`'s status parser takes.
pub open spec fn parse_code(t: Seq<u8>) -> Option<u16> {
    if t.len() == 3 && is_digit(t[0]) && is_digit(t[1]) && is_digit(t[2]) && code_val(t) >= 100 {
        Some(code_val(t) as u16)
    } else {
        None
    }
}

/// The header pair a line contributes: `None` for the empty line, a
/// `Status:` line, a line without `:`, an empty key, or an empty trimmed
/// value; otherwise the key verbatim and the value trimmed.
pub open spec fn line_header(l: Seq<u8>) -> Option<(Seq<u8>, Seq<u8>)> {
    if l.len() == 0 || is_status_line(l) {
        None
    } else {
        match find_sub(l, seq![58u8]) {
            Some(j) => {
                let key = l.subrange(0, j);
                let val = trim_ws(l, j + 1, l.len() as int);
                if j > 0 && val.len() > 0 {
                    Some((key, val))
                } else {
                    None
                }
            },
            None => None,
        }
    }
}

/// The response status after folding all `Status:` lines over the default,
/// the last well-formed one winning.
pub open spec fn status_fold(lines: Seq<Seq<u8>>, cur: u16) -> u16
    decreases lines.len(),
{
    if lines.len() == 0 {
        cur
    } else {
        let l = lines[0];
        let next = if is_status_line(l) {
            match parse_code(second_token(l)) {
                Some(c) => c,
                None => cur,
            }
        } else {
            cur
        };
        status_fold(lines.subrange(1, lines.len() as int), next)
    }
}

/// The header pairs contributed by the lines, in order.
pub open spec fn headers_of(lines: Seq<Seq<u8>>) -> Seq<(Seq<u8>, Seq<u8>)>
    decreases lines.len(),
{
    if lines.len() == 0 {
        Seq::empty()
    } else {
        let rest = headers_of(lines.subrange(1, lines.len() as int));
        match line_header(lines[0]) {
            Some(p) => seq![p] + rest,
            None => rest,
        }
    }
}

/// Bytes of `Content-Type`.
pub open spec fn content_type_key() -> Seq<u8> {
    seq![67u8, 111u8, 110u8, 116u8, 101u8, 110u8, 116u8, 45u8, 84u8, 121u8, 112u8, 101u8]
}

/// Bytes of `text/plain`.
pub open spec fn text_plain_value() -> Seq<u8> {
    seq![116u8, 101u8, 120u8, 116u8, 47u8, 112u8, 108u8, 97u8, 105u8, 110u8]
}

/// The response status for the subprocess output: from the header block if
/// a boundary exists, else 500 when stderr is non-empty, else 200.
pub open spec fn cgi_status(out: Seq<u8>, err: Seq<u8>) -> u16 {
    match header_end(out) {
        Some(e) => status_fold(split_lines(out.subrange(0, e)), 200),
        None => if err.len() > 0 {
            500
        } else {
            200
        },
    }
}

/// The response headers for the subprocess output.
pub open spec fn cgi_headers(out: Seq<u8>, err: Seq<u8>) -> Seq<(Seq<u8>, Seq<u8>)> {
    match header_end(out) {
        Some(e) => headers_of(split_lines(out.subrange(0, e))),
        None => if err.len() > 0 {
            seq![(content_type_key(), text_plain_value())]
        } else {
            Seq::empty()
        },
    }
}

/// The response body for the subprocess output.
pub open spec fn cgi_body(out: Seq<u8>, err: Seq<u8>) -> Seq<u8> {
    match header_end(out) {
        Some(e) => out.subrange(e, out.len() as int),
        None => if err.len() > 0 {
            err
        } else {
            out
        },
    }
}

/// Copies `s[a..b]` into a fresh vector.
fn copy_range(s: &[u8], a: usize, b: usize) -> (v: Vec<u8>)
    requires
        a <= b <= s@.len(),
    ensures
        v@ == s@.subrange(a as int, b as int),
{
    slice_to_vec(slice_subrange(s, a, b))
}

/// Splits the header block into its lines.
fn split_lines_exec(s: &[u8]) -> (lines: Vec<Vec<u8>>)
    ensures
        lines_view(lines@) == split_lines(s@),
{
    let n: usize = s.len();
    let mut out: Vec<Vec<u8>> = Vec::new();
    let mut p: usize = 0;
    while p < n
        invariant
            p <= n,
            n == s@.len(),
            split_lines(s@) =~= lines_view(out@) + split_lines_from(s@, p as int),
        decreases n - p,
    {
        let ghost prev = out@;
        match find_byte_from(s, 10u8, p) {
            Some(j) => {
                let endl: usize = if j > p && s[j - 1] == 13u8 {
                    j - 1
                } else {
                    j
                };
                let line = copy_range(s, p, endl);
                proof {
                    if j > p {
                        assert(s@.subrange(p as int, j as int)[j - p - 1] == s@[j - 1]);
                    }
                    assert(line@ =~= strip_cr(s@.subrange(p as int, j as int)));
                }
                out.push(line);
                proof {
                    assert(lines_view(out@) =~= lines_view(prev) + seq![strip_cr(
                        s@.subrange(p as int, j as int),
                    )]);
                    assert(split_lines_from(s@, p as int) =~= seq![strip_cr(
                        s@.subrange(p as int, j as int),
                    )] + split_lines_from(s@, j + 1));
                }
                p = j + 1;
            },
            None => {
                let line = copy_range(s, p, n);
                out.push(line);
                proof {
                    assert(lines_view(out@) =~= lines_view(prev) + seq![s@.subrange(
                        p as int,
                        n as int,
                    )]);
                    assert(split_lines_from(s@, p as int) =~= seq![s@.subrange(p as int, n as int)]);
                }
                p = n;
            },
        }
    }
    proof {
        assert(split_lines_from(s@, p as int) =~= Seq::<Seq<u8>>::empty());
        assert(lines_view(out@) + Seq::<Seq<u8>>::empty() =~= lines_view(out@));
    }
    out
}

/// First non-whitespace position at or after `from`.
fn scan_non_ws(s: &[u8], from: usize) -> (r: usize)
    requires
        from <= s@.len(),
    ensures
        from <= r <= s@.len(),
        r as int == non_ws_from(s@, from as int),
{
    let n: usize = s.len();
    let mut i: usize = from;
    while i < n && (s[i] == 32u8 || (9u8 <= s[i] && s[i] <= 13u8))
        invariant
            from <= i <= n,
            n == s@.len(),
            non_ws_from(s@, from as int) == non_ws_from(s@, i as int),
        decreases n - i,
    {
        i = i + 1;
    }
    i
}

/// First whitespace position at or after `from`.
fn scan_ws(s: &[u8], from: usize) -> (r: usize)
    requires
        from <= s@.len(),
    ensures
        from <= r <= s@.len(),
        r as int == ws_from(s@, from as int),
{
    let n: usize = s.len();
    let mut i: usize = from;
    while i < n && !(s[i] == 32u8 || (9u8 <= s[i] && s[i] <= 13u8))
        invariant
            from <= i <= n,
            n == s@.len(),
            ws_from(s@, from as int) == ws_from(s@, i as int),
        decreases n - i,
    {
        i = i + 1;
    }
    i
}

/// Last non-whitespace position in `s[lo..hi]`, scanning down from `hi`.
fn scan_ws_end(s: &[u8], lo: usize, hi: usize) -> (r: usize)
    requires
        lo <= hi <= s@.len(),
    ensures
        lo <= r <= hi,
        r as int == ws_end(s@, lo as int, hi as int),
{
    let mut i: usize = hi;
    while i > lo && (s[i - 1] == 32u8 || (9u8 <= s[i - 1] && s[i - 1] <= 13u8))
        invariant
            lo <= i <= hi,
            hi <= s@.len(),
            ws_end(s@, lo as int, hi as int) == ws_end(s@, lo as int, i as int),
        decreases i,
    {
        i = i - 1;
    }
    i
}

/// Whether the line is a `Status:` line.
fn is_status_exec(l: &[u8]) -> (r: bool)
    ensures
        r == is_status_line(l@),
{
    if l.len() < 7 {
        return false;
    }
    (l[0] == 115u8 || l[0] == 83u8) && (l[1] == 116u8 || l[1] == 84u8) && (l[2] == 97u8 || l[2]
        == 65u8) && (l[3] == 116u8 || l[3] == 84u8) && (l[4] == 117u8 || l[4] == 85u8) && (l[5]
        == 115u8 || l[5] == 83u8) && l[6] == 58u8
}

/// Status code named by the second token of a `Status:` line, if well-formed.
fn token_code(l: &[u8]) -> (r: Option<u16>)
    ensures
        r == parse_code(second_token(l@)),
{
    let a = scan_non_ws(l, 0);
    let b = scan_ws(l, a);
    let c = scan_non_ws(l, b);
    let d = scan_ws(l, c);
    let ghost tok = second_token(l@);
    proof {
        assert(tok =~= l@.subrange(c as int, d as int));
    }
    if d - c != 3 {
        return None;
    }
    let d0 = l[c];
    let d1 = l[c + 1];
    let d2 = l[c + 2];
    proof {
        assert(tok[0] == l@[c as int]);
        assert(tok[1] == l@[c + 1]);
        assert(tok[2] == l@[c + 2]);
    }
    if 48u8 <= d0 && d0 <= 57u8 && 48u8 <= d1 && d1 <= 57u8 && 48u8 <= d2 && d2 <= 57u8 {
        let v: u16 = (d0 - 48) as u16 * 100 + (d1 - 48) as u16 * 10 + (d2 - 48) as u16;
        if v >= 100 {
            Some(v)
        } else {
            None
        }
    } else {
        None
    }
}

/// The header pair a line contributes, if any.
fn header_of_line(l: &[u8]) -> (r: Option<(Vec<u8>, Vec<u8>)>)
    ensures
        r matches Some(p) ==> line_header(l@) == Some((p.0@, p.1@)),
        r is None ==> line_header(l@) is None,
{
    let n: usize = l.len();
    if n == 0 {
        return None;
    }
    if is_status_exec(l) {
        return None;
    }
    match find_byte_from(l, 58u8, 0) {
        Some(j) => {
            if j == 0 {
                return None;
            }
            let b = scan_ws_end(l, j + 1, n);
            let a = scan_non_ws(l, j + 1);
            if a < b {
                let key = copy_range(l, 0, j);
                let val = copy_range(l, a, b);
                proof {
                    assert(val@ =~= trim_ws(l@, j + 1, n as int));
                }
                Some((key, val))
            } else {
                proof {
                    assert(trim_ws(l@, j + 1, n as int) =~= Seq::<u8>::empty());
                }
                None
            }
        },
        None => None,
    }
}

/// Folds the header lines into the response status and header list.
fn process_lines(lines: &Vec<Vec<u8>>) -> (r: (u16, Vec<(Vec<u8>, Vec<u8>)>))
    ensures
        r.0 == status_fold(lines_view(lines@), 200),
        pairs_view(r.1@) == headers_of(lines_view(lines@)),
{
    let n: usize = lines.len();
    let mut status: u16 = 200;
    let mut headers: Vec<(Vec<u8>, Vec<u8>)> = Vec::new();
    let ghost lv = lines_view(lines@);
    proof {
        assert(lv.subrange(0, n as int) =~= lv);
        assert(pairs_view(headers@) + headers_of(lv) =~= headers_of(lv));
    }
    let mut i: usize = 0;
    while i < n
        invariant
            i <= n,
            n == lines@.len(),
            lv == lines_view(lines@),
            lv.len() == n,
            status_fold(lv.subrange(i as int, n as int), status) == status_fold(lv, 200),
            headers_of(lv) =~= pairs_view(headers@) + headers_of(lv.subrange(i as int, n as int)),
        decreases n - i,
    {
        let l: &[u8] = lines[i].as_slice();
        let ghost rest = lv.subrange(i as int, n as int);
        proof {
            assert(rest[0] == lv[i as int]);
            assert(lv[i as int] == lines@[i as int]@);
            assert(rest.subrange(1, rest.len() as int) =~= lv.subrange(i + 1, n as int));
        }
        if is_status_exec(l) {
            match token_code(l) {
                Some(c) => {
                    status = c;
                },
                None => {},
            }
        } else {
            let ghost prev = headers@;
            match header_of_line(l) {
                Some(p) => {
                    let ghost gp = (p.0@, p.1@);
                    headers.push(p);
                    proof {
                        assert(pairs_view(headers@) =~= pairs_view(prev) + seq![gp]);
                    }
                },
                None => {},
            }
        }
        i = i + 1;
    }
    proof {
        assert(lv.subrange(n as int, n as int) =~= Seq::<Seq<u8>>::empty());
        assert(pairs_view(headers@) + Seq::<(Seq<u8>, Seq<u8>)>::empty() =~= pairs_view(headers@));
    }
    (status, headers)
}

/// Finds where the CGI header block ends, if it does.
fn find_header_end(out: &[u8]) -> (r: Option<usize>)
    ensures
        r matches Some(e) ==> header_end(out@) == Some(e as int) && e <= out@.len(),
        r is None ==> header_end(out@) is None,
{
    let mut lf: Vec<u8> = Vec::new();
    lf.push(10u8);
    lf.push(10u8);
    let mut crlf: Vec<u8> = Vec::new();
    crlf.push(13u8);
    crlf.push(10u8);
    crlf.push(13u8);
    crlf.push(10u8);
    proof {
        assert(lf@ =~= seq![10u8, 10u8]);
        assert(crlf@ =~= seq![13u8, 10u8, 13u8, 10u8]);
    }
    let n: usize = out.len();
    let fa = find_bytes(out, lf.as_slice());
    let fb = find_bytes(out, crlf.as_slice());
    proof {
        if let Some(a) = fa {
            lemma_find_from_bounds(out@, seq![10u8, 10u8], 0, a as int);
            assert(a + 2 <= n);
        }
        if let Some(b) = fb {
            lemma_find_from_bounds(out@, seq![13u8, 10u8, 13u8, 10u8], 0, b as int);
            assert(b + 4 <= n);
        }
    }
    match (fa, fb) {
        (Some(a), Some(b)) => if a < b {
            Some(a + 2)
        } else {
            Some(b + 4)
        },
        (Some(a), None) => Some(a + 2),
        (None, Some(b)) => Some(b + 4),
        (None, None) => None,
    }
}

/// Turns the stdout and stderr of the CGI subprocess into an HTTP response.
///
/// When the header block has no terminating blank line, a non-empty stderr
/// becomes a plain-text 500 response and an empty one a raw 200 response;
/// otherwise the header block decides the status and headers, and the bytes
/// after the boundary become the body.
pub fn parse_cgi_output(stdout: &[u8], stderr: &[u8]) -> (r: HttpReply)
    ensures
        r.status == cgi_status(stdout@, stderr@),
        pairs_view(r.headers@) == cgi_headers(stdout@, stderr@),
        r.body@ == cgi_body(stdout@, stderr@),
{
    match find_header_end(stdout) {
        Some(e) => {
            let head = slice_subrange(stdout, 0, e);
            let lines = split_lines_exec(head);
            let (status, headers) = process_lines(&lines);
            let body = copy_range(stdout, e, stdout.len());
            HttpReply { status, headers, body }
        },
        None => {
            if stderr.len() > 0 {
                let mut key: Vec<u8> = Vec::new();
                key.push(67u8);
                key.push(111u8);
                key.push(110u8);
                key.push(116u8);
                key.push(101u8);
                key.push(110u8);
                key.push(116u8);
                key.push(45u8);
                key.push(84u8);
                key.push(121u8);
                key.push(112u8);
                key.push(101u8);
                let mut val: Vec<u8> = Vec::new();
                val.push(116u8);
                val.push(101u8);
                val.push(120u8);
                val.push(116u8);
                val.push(47u8);
                val.push(112u8);
                val.push(108u8);
                val.push(97u8);
                val.push(105u8);
                val.push(110u8);
                proof {
                    assert(key@ =~= content_type_key());
                    assert(val@ =~= text_plain_value());
                }
                let mut headers: Vec<(Vec<u8>, Vec<u8>)> = Vec::new();
                headers.push((key, val));
                proof {
                    assert(pairs_view(headers@) =~= seq![(content_type_key(), text_plain_value())]);
                }
                let body = copy_range(stderr, 0, stderr.len());
                proof {
                    assert(body@ =~= stderr@);
                }
                HttpReply { status: 500, headers, body }
            } else {
                let body = copy_range(stdout, 0, stdout.len());
                proof {
                    assert(body@ =~= stdout@);
                }
                HttpReply { status: 200, headers: Vec::new(), body }
            }
        },
    }
}

} // verus!
