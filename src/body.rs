//! Isolating the payload of a raw request.
use vstd::prelude::*;
use vstd::string::*;

verus! {

/// `p` occurs in `s` starting at position `i`.
pub open spec fn occurs_at(s: Seq<char>, p: Seq<char>, i: int) -> bool {
    0 <= i && i + p.len() <= s.len() && s.subrange(i, i + p.len()) == p
}

/// `i` is the first position at which `p` occurs in `s`.
pub open spec fn first_at(s: Seq<char>, p: Seq<char>, i: int) -> bool {
    occurs_at(s, p, i) && forall|j: int| 0 <= j < i ==> !occurs_at(s, p, j)
}

pub open spec fn contains(s: Seq<char>, p: Seq<char>) -> bool {
    exists|i: int| occurs_at(s, p, i)
}

/// The canonical header/body separator: a doubled CRLF.
pub open spec fn crlf_crlf() -> Seq<char> {
    seq!['\r', '\n', '\r', '\n']
}

/// The fallback separator: a doubled newline.
pub open spec fn lf_lf() -> Seq<char> {
    seq!['\n', '\n']
}

/// What follows the first occurrence of `p` in `s` (`p` must occur).
pub open spec fn after_first(s: Seq<char>, p: Seq<char>) -> Seq<char> {
    let i = choose|i: int| first_at(s, p, i);
    s.subrange(i + p.len(), s.len() as int)
}

/// Length of the prefix of `t` up to and including its last newline
/// (0 when `t` holds none).
pub open spec fn last_newline_end(t: Seq<char>) -> int
    decreases t.len(),
{
    if t.len() == 0 {
        0
    } else if t.last() == '\n' {
        t.len() as int
    } else {
        last_newline_end(t.drop_last())
    }
}

/// The last line of `s`, as `str::lines` yields it: lines end at `\n`, a
/// final `\n` opens no new line, and a line ended by `\n` loses one trailing
/// `\r`. An empty text has no line, which gives the empty string.
pub open spec fn last_line(s: Seq<char>) -> Seq<char> {
    if s.len() == 0 {
        seq![]
    } else if s.last() == '\n' {
        let t = s.drop_last();
        let seg = t.subrange(last_newline_end(t), t.len() as int);
        if seg.len() > 0 && seg.last() == '\r' {
            seg.drop_last()
        } else {
            seg
        }
    } else {
        s.subrange(last_newline_end(s), s.len() as int)
    }
}

/// The body of a raw request: what follows the first doubled CRLF, else what
/// follows the first doubled newline, else the request's last line.
pub open spec fn body_of(s: Seq<char>) -> Seq<char> {
    if contains(s, crlf_crlf()) {
        after_first(s, crlf_crlf())
    } else if contains(s, lf_lf()) {
        after_first(s, lf_lf())
    } else {
        last_line(s)
    }
}

fn chars_of(s: &str) -> (r: Vec<char>)
    ensures
        r@ == s@,
{
    let n = s.unicode_len();
    let mut r: Vec<char> = Vec::new();
    let mut i: usize = 0;
    while i < n
        invariant
            n == s@.len(),
            i <= n,
            r@ == s@.subrange(0, i as int),
        decreases n - i,
    {
        r.push(s.get_char(i));
        i = i + 1;
        assert(r@ =~= s@.subrange(0, i as int));
    }
    assert(r@ =~= s@);
    r
}

fn occurs_here(v: &Vec<char>, p: &Vec<char>, i: usize) -> (r: bool)
    requires
        i <= v@.len(),
    ensures
        r == occurs_at(v@, p@, i as int),
{
    if p.len() > v.len() - i {
        return false;
    }
    let mut k: usize = 0;
    while k < p.len()
        invariant
            i + p@.len() <= v@.len(),
            v@.len() <= usize::MAX,
            k <= p@.len(),
            forall|m: int| 0 <= m < k ==> v@[i + m] == p@[m],
        decreases p@.len() - k,
    {
        if v[i + k] != p[k] {
            assert(v@.subrange(i as int, i + p@.len())[k as int] != p@[k as int]);
            return false;
        }
        k = k + 1;
    }
    assert(v@.subrange(i as int, i + p@.len()) =~= p@);
    true
}

/// Position of the first occurrence of `p` in `v`.
fn find_first(v: &Vec<char>, p: &Vec<char>) -> (r: Option<usize>)
    ensures
        match r {
            Some(i) => first_at(v@, p@, i as int),
            None => !contains(v@, p@),
        },
{
    let mut i: usize = 0;
    while i < v.len()
        invariant
            i <= v@.len(),
            forall|j: int| 0 <= j < i ==> !occurs_at(v@, p@, j),
        decreases v@.len() - i,
    {
        if occurs_here(v, p, i) {
            return Some(i);
        }
        i = i + 1;
    }
    if occurs_here(v, p, i) {
        return Some(i);
    }
    assert forall|j: int| !occurs_at(v@, p@, j) by {
        if 0 <= j && j > v@.len() {
        }
    }
    None
}

fn take_after(s: &str, v: &Vec<char>, p: &Vec<char>, i: usize) -> (r: String)
    requires
        v@ == s@,
        first_at(v@, p@, i as int),
    ensures
        r@ == after_first(s@, p@),
{
    assert(occurs_at(v@, p@, i as int));
    let n = v.len();
    let start = i + p.len();
    let piece = s.substring_char(start, n);
    proof {
        let c = choose|c: int| first_at(s@, p@, c);
        if c < i {
            assert(!occurs_at(v@, p@, c));
        }
        if i < c {
            assert(!occurs_at(v@, p@, i as int));
        }
    }
    piece.to_string()
}

/// Index just past the last newline among the first `end` characters of `v`.
fn last_newline_end_exec(v: &Vec<char>, end: usize) -> (r: usize)
    requires
        end <= v@.len(),
    ensures
        r as int == last_newline_end(v@.subrange(0, end as int)),
        r <= end,
{
    let mut j: usize = end;
    while j > 0
        invariant
            j <= end <= v@.len(),
            last_newline_end(v@.subrange(0, j as int)) == last_newline_end(
                v@.subrange(0, end as int),
            ),
        decreases j,
    {
        if v[j - 1] == '\n' {
            return j;
        }
        assert(v@.subrange(0, j as int).drop_last() =~= v@.subrange(0, j - 1));
        j = j - 1;
    }
    0
}

fn last_line_exec(s: &str, v: &Vec<char>) -> (r: String)
    requires
        v@ == s@,
    ensures
        r@ == last_line(s@),
{
    let n = v.len();
    if n == 0 {
        return String::new();
    }
    if v[n - 1] == '\n' {
        let t_end = n - 1;
        let start = last_newline_end_exec(v, t_end);
        assert(s@.drop_last() =~= v@.subrange(0, t_end as int));
        let mut stop = t_end;
        if start < t_end && v[t_end - 1] == '\r' {
            stop = t_end - 1;
        }
        let piece = s.substring_char(start, stop);
        proof {
            let t = s@.drop_last();
            let seg = t.subrange(start as int, t.len() as int);
            if seg.len() > 0 && seg.last() == '\r' {
                assert(piece@ =~= seg.drop_last());
            } else {
                assert(piece@ =~= seg);
            }
        }
        piece.to_string()
    } else {
        let start = last_newline_end_exec(v, n);
        assert(s@ =~= v@.subrange(0, n as int));
        let piece = s.substring_char(start, n);
        piece.to_string()
    }
}

/// The body of a raw request. Never fails: with no separator and no line it
/// is the empty string.
pub fn extract_http_body(request: &str) -> (r: String)
    ensures
        r@ == body_of(request@),
{
    let v = chars_of(request);
    let crlf2: Vec<char> = vec!['\r', '\n', '\r', '\n'];
    let lf2: Vec<char> = vec!['\n', '\n'];
    assert(crlf2@ =~= crlf_crlf());
    assert(lf2@ =~= lf_lf());
    match find_first(&v, &crlf2) {
        Some(i) => take_after(request, &v, &crlf2, i),
        None => match find_first(&v, &lf2) {
            Some(i) => take_after(request, &v, &lf2, i),
            None => last_line_exec(request, &v),
        },
    }
}

/// A text with no newline ends no line: the last line starts at its head.
proof fn lemma_no_newline_end(t: Seq<char>)
    requires
        forall|i: int| 0 <= i < t.len() ==> t[i] != '\n',
    ensures
        last_newline_end(t) == 0,
    decreases t.len(),
{
    if t.len() > 0 {
        lemma_no_newline_end(t.drop_last());
    }
}

/// With neither separator present, the body is the request's last line.
pub proof fn lemma_body_without_separator(s: Seq<char>)
    requires
        !contains(s, crlf_crlf()),
        !contains(s, lf_lf()),
    ensures
        body_of(s) == last_line(s),
{
}

/// A text of a single line with no newline is its own body, so extracting
/// again from an extracted one-line body changes nothing.
pub proof fn lemma_single_line_body(s: Seq<char>)
    requires
        forall|i: int| 0 <= i < s.len() ==> s[i] != '\n',
    ensures
        body_of(s) == s,
        body_of(body_of(s)) == body_of(s),
{
    assert(!contains(s, crlf_crlf())) by {
        if contains(s, crlf_crlf()) {
            let i = choose|i: int| occurs_at(s, crlf_crlf(), i);
            assert(s.subrange(i, i + 4)[1] == s[i + 1]);
        }
    }
    assert(!contains(s, lf_lf())) by {
        if contains(s, lf_lf()) {
            let i = choose|i: int| occurs_at(s, lf_lf(), i);
            assert(s.subrange(i, i + 2)[0] == s[i]);
        }
    }
    if s.len() > 0 {
        lemma_no_newline_end(s);
        assert(s.subrange(0, s.len() as int) =~= s);
    }
}

} // verus!
