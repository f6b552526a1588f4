//! Character-level helpers shared by the parsers of this crate.
//!
//! Text is modelled as `Seq<char>`. The executable functions work on
//! `Vec<char>`, and `chars_of` / `string_of` move between that and strings.

use vstd::prelude::*;

verus! {

/// Whether `c` has the Unicode `White_Space` property.
pub open spec fn whitespace(c: char) -> bool {
    let u = c as u32;
    ||| 0x09 <= u <= 0x0D
    ||| u == 0x20
    ||| u == 0x85
    ||| u == 0xA0
    ||| u == 0x1680
    ||| 0x2000 <= u <= 0x200A
    ||| u == 0x2028
    ||| u == 0x2029
    ||| u == 0x202F
    ||| u == 0x205F
    ||| u == 0x3000
}

/// `s` without its leading whitespace.
pub open spec fn trimmed_start(s: Seq<char>) -> Seq<char>
    decreases s.len(),
{
    if s.len() > 0 && whitespace(s[0]) {
        trimmed_start(s.drop_first())
    } else {
        s
    }
}

/// `s` without its trailing whitespace.
pub open spec fn trimmed_end(s: Seq<char>) -> Seq<char>
    decreases s.len(),
{
    if s.len() > 0 && whitespace(s.last()) {
        trimmed_end(s.drop_last())
    } else {
        s
    }
}

/// `s` without leading and trailing whitespace.
pub open spec fn trimmed(s: Seq<char>) -> Seq<char> {
    trimmed_end(trimmed_start(s))
}

/// Whether `pat` occurs in `s` starting at index `i`.
pub open spec fn matches_at(s: Seq<char>, pat: Seq<char>, i: int) -> bool {
    0 <= i && i + pat.len() <= s.len() && s.subrange(i, i + pat.len()) == pat
}

/// Whether `i` is the leftmost index at which `pat` occurs in `s`.
pub open spec fn is_first_match(s: Seq<char>, pat: Seq<char>, i: int) -> bool {
    matches_at(s, pat, i) && forall|j: int| 0 <= j < i ==> !matches_at(s, pat, j)
}

/// Whether `i` is the rightmost index at which `pat` occurs in `s`.
pub open spec fn is_last_match(s: Seq<char>, pat: Seq<char>, i: int) -> bool {
    matches_at(s, pat, i) && forall|j: int| i < j ==> !matches_at(s, pat, j)
}

/// Whether `pat` occurs somewhere in `s`.
pub open spec fn contains(s: Seq<char>, pat: Seq<char>) -> bool {
    exists|i: int| matches_at(s, pat, i)
}

/// The leftmost index at which `pat` occurs in `s`, if it occurs at all.
pub open spec fn first_match(s: Seq<char>, pat: Seq<char>) -> Option<int> {
    if exists|i: int| is_first_match(s, pat, i) {
        Some(choose|i: int| is_first_match(s, pat, i))
    } else {
        None
    }
}

/// The rightmost index at which `pat` occurs in `s`, if it occurs at all.
pub open spec fn last_match(s: Seq<char>, pat: Seq<char>) -> Option<int> {
    if exists|i: int| is_last_match(s, pat, i) {
        Some(choose|i: int| is_last_match(s, pat, i))
    } else {
        None
    }
}

/// `c` with the ASCII upper-case letters mapped to lower case.
pub open spec fn ascii_lower(c: char) -> char {
    if 'A' <= c <= 'Z' {
        ((c as u8) + 32u8) as char
    } else {
        c
    }
}

/// Whether `a` and `b` are equal up to the case of ASCII letters.
pub open spec fn same_ignoring_ascii_case(a: Seq<char>, b: Seq<char>) -> bool {
    a.len() == b.len() && forall|i: int|
        0 <= i < a.len() ==> ascii_lower(#[trigger] a[i]) == ascii_lower(b[i])
}

/// Number of characters of `s` before its first line feed, or the length of
/// `s` if it has none.
pub open spec fn line_length(s: Seq<char>) -> int
    decreases s.len(),
{
    if s.len() == 0 || s[0] == '\n' {
        0
    } else {
        1 + line_length(s.drop_first())
    }
}

/// A line as it stood before its line feed, without the carriage return of a
/// CRLF ending.
pub open spec fn without_carriage_return(line: Seq<char>) -> Seq<char> {
    if line.len() > 0 && line.last() == '\r' {
        line.drop_last()
    } else {
        line
    }
}

/// The lines of `s`: split at each line feed, a carriage return directly
/// before a line feed removed with it. Text after the last line feed is a line
/// of its own unless it is empty.
pub open spec fn lines_of(s: Seq<char>) -> Seq<Seq<char>>
    decreases s.len(),
{
    if s.len() == 0 {
        Seq::empty()
    } else {
        let n = line_length(s);
        if 0 <= n < s.len() {
            seq![without_carriage_return(s.take(n))] + lines_of(s.skip(n + 1))
        } else {
            seq![s]
        }
    }
}

/// The views of the lines held in `lines`.
pub open spec fn line_views(lines: Seq<Vec<char>>) -> Seq<Seq<char>> {
    lines.map_values(|l: Vec<char>| l@)
}

proof fn lemma_line_length_bounds(s: Seq<char>)
    ensures
        0 <= line_length(s) <= s.len(),
        line_length(s) < s.len() ==> s[line_length(s)] == '\n',
        forall|k: int| 0 <= k < line_length(s) ==> s[k] != '\n',
    decreases s.len(),
{
    if s.len() == 0 || s[0] == '\n' {
    } else {
        let t = s.drop_first();
        lemma_line_length_bounds(t);
        assert forall|k: int| 0 <= k < line_length(s) implies s[k] != '\n' by {
            if k > 0 {
                assert(s[k] == t[k - 1]);
            }
        }
    }
}

/// The first line feed of `s` is found at `n` when nothing before `n` is one.
proof fn lemma_line_length_is(s: Seq<char>, n: int)
    requires
        0 <= n <= s.len(),
        forall|k: int| 0 <= k < n ==> s[k] != '\n',
        n < s.len() ==> s[n] == '\n',
    ensures
        line_length(s) == n,
{
    lemma_line_length_bounds(s);
    let m = line_length(s);
    if m < n {
        assert(s[m] == '\n');
    } else if m > n {
        assert(s[n] != '\n');
    }
}

proof fn lemma_first_match_is(s: Seq<char>, pat: Seq<char>, i: int)
    requires
        is_first_match(s, pat, i),
    ensures
        first_match(s, pat) == Some(i),
{
    let j = choose|j: int| is_first_match(s, pat, j);
    assert(is_first_match(s, pat, j));
    if j < i {
        assert(!matches_at(s, pat, j));
    } else if i < j {
        assert(!matches_at(s, pat, i));
    }
}

proof fn lemma_first_match_none(s: Seq<char>, pat: Seq<char>)
    requires
        forall|j: int| !matches_at(s, pat, j),
    ensures
        first_match(s, pat) is None,
        !contains(s, pat),
{
}

proof fn lemma_last_match_is(s: Seq<char>, pat: Seq<char>, i: int)
    requires
        is_last_match(s, pat, i),
    ensures
        last_match(s, pat) == Some(i),
{
    let j = choose|j: int| is_last_match(s, pat, j);
    assert(is_last_match(s, pat, j));
    if j < i {
        assert(!matches_at(s, pat, i));
    } else if i < j {
        assert(!matches_at(s, pat, j));
    }
}

/// The lower-case form of a text, as `str::to_lowercase` gives it. The
/// mapping follows the Unicode tables and is not written out here.
pub uninterp spec fn lowercase_of(s: Seq<char>) -> Seq<char>;

/// `str::to_lowercase` returns the lower-case form of the text, which depends
/// on the text alone.
pub assume_specification[ str::to_lowercase ](s: &str) -> (out: String)
    ensures
        out@ == lowercase_of(s@),
;

/// `String::push` appends exactly one character to the end of the string.
pub assume_specification[ String::push ](s: &mut String, ch: char)
    ensures
        final(s)@ == old(s)@.push(ch),
;

/// The characters of `s`, in order.
pub fn chars_of(s: &str) -> (out: Vec<char>)
    ensures
        out@ == s@,
{
    let mut out: Vec<char> = Vec::new();
    for c in it: s.chars()
        invariant
            out@ == it.seq().take(it.index() as int),
            it.seq() == s@,
    {
        out.push(c);
    }
    out
}

/// The string made of `v[from..to]`.
pub fn string_of(v: &Vec<char>, from: usize, to: usize) -> (out: String)
    requires
        from <= to <= v.len(),
    ensures
        out@ == v@.subrange(from as int, to as int),
{
    let mut out = String::new();
    let mut i: usize = from;
    while i < to
        invariant
            from <= i <= to <= v.len(),
            out@ == v@.subrange(from as int, i as int),
        decreases to - i,
    {
        out.push(v[i]);
        i += 1;
    }
    out
}

/// The whole of `v` as a string.
pub fn to_string(v: &Vec<char>) -> (out: String)
    ensures
        out@ == v@,
{
    let out = string_of(v, 0, v.len());
    assert(v@.subrange(0, v.len() as int) == v@);
    out
}

/// A copy of `v[from..to]`.
pub fn slice(v: &Vec<char>, from: usize, to: usize) -> (out: Vec<char>)
    requires
        from <= to <= v.len(),
    ensures
        out@ == v@.subrange(from as int, to as int),
{
    let mut out: Vec<char> = Vec::new();
    let mut i: usize = from;
    while i < to
        invariant
            from <= i <= to <= v.len(),
            out@ == v@.subrange(from as int, i as int),
        decreases to - i,
    {
        out.push(v[i]);
        i += 1;
    }
    out
}

/// Appends the characters of `tail` to `out`.
pub fn extend(out: &mut Vec<char>, tail: &Vec<char>)
    ensures
        final(out)@ == old(out)@ + tail@,
{
    let mut i: usize = 0;
    while i < tail.len()
        invariant
            i <= tail.len(),
            out@ == old(out)@ + tail@.take(i as int),
        decreases tail.len() - i,
    {
        out.push(tail[i]);
        i += 1;
    }
    assert(tail@.take(tail.len() as int) == tail@);
}

/// Appends the characters of `tail` to `out`.
pub fn extend_str(out: &mut Vec<char>, tail: &str)
    ensures
        final(out)@ == old(out)@ + tail@,
{
    let t = chars_of(tail);
    extend(out, &t);
}

/// Whether `c` is whitespace.
pub fn is_whitespace(c: char) -> (r: bool)
    ensures
        r == whitespace(c),
{
    let u: u32 = c as u32;
    (0x09 <= u && u <= 0x0D) || u == 0x20 || u == 0x85 || u == 0xA0 || u == 0x1680 || (0x2000 <= u
        && u <= 0x200A) || u == 0x2028 || u == 0x2029 || u == 0x202F || u == 0x205F || u == 0x3000
}

/// `c` in lower case if it is an ASCII letter, else `c`.
pub fn to_ascii_lower(c: char) -> (r: char)
    ensures
        r == ascii_lower(c),
{
    if 'A' <= c && c <= 'Z' {
        ((c as u8) + 32u8) as char
    } else {
        c
    }
}

proof fn lemma_trimmed_start_skip(s: Seq<char>, i: int)
    requires
        0 <= i <= s.len(),
        forall|k: int| 0 <= k < i ==> whitespace(s[k]),
    ensures
        trimmed_start(s) == trimmed_start(s.skip(i)),
    decreases i,
{
    if i > 0 {
        let t = s.drop_first();
        assert forall|k: int| 0 <= k < i - 1 implies whitespace(t[k]) by {
            assert(t[k] == s[k + 1]);
        }
        lemma_trimmed_start_skip(t, i - 1);
        assert(t.skip(i - 1) == s.skip(i));
        assert(whitespace(s[0]));
    } else {
        assert(s.skip(0) == s);
    }
}

proof fn lemma_trimmed_end_take(s: Seq<char>, n: int)
    requires
        0 <= n <= s.len(),
        forall|k: int| n <= k < s.len() ==> whitespace(s[k]),
    ensures
        trimmed_end(s) == trimmed_end(s.take(n)),
    decreases s.len() - n,
{
    if n < s.len() {
        let t = s.drop_last();
        assert(whitespace(s.last()));
        assert forall|k: int| n <= k < t.len() implies whitespace(t[k]) by {
            assert(t[k] == s[k]);
        }
        lemma_trimmed_end_take(t, n);
        assert(t.take(n) == s.take(n));
    } else {
        assert(s.take(n) == s);
    }
}

/// `v` without leading and trailing whitespace.
pub fn trim(v: &Vec<char>) -> (out: Vec<char>)
    ensures
        out@ == trimmed(v@),
{
    let mut a: usize = 0;
    while a < v.len() && is_whitespace(v[a])
        invariant
            a <= v.len(),
            forall|k: int| 0 <= k < a ==> whitespace(v@[k]),
        decreases v.len() - a,
    {
        a += 1;
    }
    let mut b: usize = v.len();
    while b > a && is_whitespace(v[b - 1])
        invariant
            a <= b <= v.len(),
            forall|k: int| b <= k < v.len() ==> whitespace(v@[k]),
        decreases b,
    {
        b -= 1;
    }
    let out = slice(v, a, b);
    proof {
        let s = v@;
        lemma_trimmed_start_skip(s, a as int);
        let t = s.skip(a as int);
        assert(trimmed_start(t) == t);
        assert forall|k: int| b - a <= k < t.len() implies whitespace(t[k]) by {
            assert(t[k] == s[k + a]);
        }
        lemma_trimmed_end_take(t, b - a);
        let u = t.take(b - a);
        assert(u == s.subrange(a as int, b as int));
        assert(trimmed_end(u) == u);
    }
    out
}

/// Whether `pat` occurs in `s` at index `i`.
pub fn starts_at(s: &Vec<char>, pat: &Vec<char>, i: usize) -> (r: bool)
    ensures
        r == matches_at(s@, pat@, i as int),
{
    if pat.len() > s.len() || i > s.len() - pat.len() {
        return false;
    }
    let mut k: usize = 0;
    while k < pat.len()
        invariant
            k <= pat.len(),
            i + pat.len() <= s.len(),
            forall|j: int| 0 <= j < k ==> s@[i + j] == pat@[j],
        decreases pat.len() - k,
    {
        if s[i + k] != pat[k] {
            proof {
                let sub = s@.subrange(i as int, i + pat.len());
                assert(sub[k as int] == s@[i + k]);
            }
            return false;
        }
        k += 1;
    }
    assert(s@.subrange(i as int, i + pat.len()) == pat@);
    true
}

/// Whether `s` begins with `pat`.
pub fn starts_with(s: &Vec<char>, pat: &Vec<char>) -> (r: bool)
    ensures
        r == matches_at(s@, pat@, 0),
{
    starts_at(s, pat, 0)
}

/// Whether `s` ends with `pat`.
pub fn ends_with(s: &Vec<char>, pat: &Vec<char>) -> (r: bool)
    ensures
        r == (pat@.len() <= s@.len() && matches_at(s@, pat@, s@.len() - pat@.len())),
{
    if pat.len() > s.len() {
        return false;
    }
    starts_at(s, pat, s.len() - pat.len())
}

/// The leftmost index at which `pat` occurs in `s`.
pub fn find(s: &Vec<char>, pat: &Vec<char>) -> (r: Option<usize>)
    ensures
        r matches Some(i) ==> first_match(s@, pat@) == Some(i as int) && is_first_match(
            s@,
            pat@,
            i as int,
        ),
        r is None ==> first_match(s@, pat@) is None,
        r is Some <==> contains(s@, pat@),
{
    if pat.len() > s.len() {
        proof {
            lemma_first_match_none(s@, pat@);
        }
        return None;
    }
    let last: usize = s.len() - pat.len();
    let mut i: usize = 0;
    loop
        invariant
            i <= last,
            last == s.len() - pat.len(),
            forall|j: int| 0 <= j < i ==> !matches_at(s@, pat@, j),
        decreases last - i,
    {
        if starts_at(s, pat, i) {
            proof {
                lemma_first_match_is(s@, pat@, i as int);
            }
            return Some(i);
        }
        if i == last {
            proof {
                lemma_first_match_none(s@, pat@);
            }
            return None;
        }
        i += 1;
    }
}

/// The rightmost index at which `pat` occurs in `s`.
pub fn rfind(s: &Vec<char>, pat: &Vec<char>) -> (r: Option<usize>)
    ensures
        r matches Some(i) ==> last_match(s@, pat@) == Some(i as int) && is_last_match(
            s@,
            pat@,
            i as int,
        ),
        r is None ==> last_match(s@, pat@) is None,
        r is Some <==> contains(s@, pat@),
{
    if pat.len() > s.len() {
        assert(forall|j: int| !matches_at(s@, pat@, j));
        return None;
    }
    let mut i: usize = s.len() - pat.len();
    loop
        invariant
            i <= s.len() - pat.len(),
            pat.len() <= s.len(),
            forall|j: int| i < j ==> !matches_at(s@, pat@, j),
        decreases i,
    {
        if starts_at(s, pat, i) {
            proof {
                lemma_last_match_is(s@, pat@, i as int);
            }
            return Some(i);
        }
        if i == 0 {
            assert(forall|j: int| !matches_at(s@, pat@, j));
            return None;
        }
        i -= 1;
    }
}

/// Whether `pat` occurs somewhere in `s`.
pub fn includes(s: &Vec<char>, pat: &Vec<char>) -> (r: bool)
    ensures
        r == contains(s@, pat@),
{
    find(s, pat).is_some()
}

/// Whether `a` and `b` are equal up to the case of ASCII letters.
pub fn eq_ignore_ascii_case(a: &Vec<char>, b: &Vec<char>) -> (r: bool)
    ensures
        r == same_ignoring_ascii_case(a@, b@),
{
    if a.len() != b.len() {
        return false;
    }
    let mut i: usize = 0;
    while i < a.len()
        invariant
            i <= a.len(),
            a.len() == b.len(),
            forall|j: int| 0 <= j < i ==> ascii_lower(#[trigger] a@[j]) == ascii_lower(b@[j]),
        decreases a.len() - i,
    {
        if to_ascii_lower(a[i]) != to_ascii_lower(b[i]) {
            return false;
        }
        i += 1;
    }
    true
}

/// Whether `a` and `b` hold the same characters.
pub fn same(a: &Vec<char>, b: &Vec<char>) -> (r: bool)
    ensures
        r == (a@ == b@),
{
    if a.len() != b.len() {
        return false;
    }
    let mut i: usize = 0;
    while i < a.len()
        invariant
            i <= a.len(),
            a.len() == b.len(),
            forall|j: int| 0 <= j < i ==> a@[j] == b@[j],
        decreases a.len() - i,
    {
        if a[i] != b[i] {
            return false;
        }
        i += 1;
    }
    assert(a@ =~= b@);
    true
}

/// Whether `a` and `b` hold the same characters.
pub fn str_eq(a: &str, b: &str) -> (r: bool)
    ensures
        r == (a@ == b@),
{
    let x = chars_of(a);
    let y = chars_of(b);
    same(&x, &y)
}

/// Whether `a` and `b` are equal up to the case of ASCII letters.
pub fn str_eq_ignore_ascii_case(a: &str, b: &str) -> (r: bool)
    ensures
        r == same_ignoring_ascii_case(a@, b@),
{
    let x = chars_of(a);
    let y = chars_of(b);
    eq_ignore_ascii_case(&x, &y)
}

/// `a` followed by `b`.
pub fn joined(a: &str, b: &str) -> (out: String)
    ensures
        out@ == a@ + b@,
{
    let mut v = chars_of(a);
    extend_str(&mut v, b);
    to_string(&v)
}

/// The lines of `v`.
pub fn lines(v: &Vec<char>) -> (out: Vec<Vec<char>>)
    ensures
        line_views(out@) == lines_of(v@),
{
    let mut out: Vec<Vec<char>> = Vec::new();
    let mut start: usize = 0;
    assert(v@.skip(0) == v@);
    assert(line_views(out@) == Seq::<Seq<char>>::empty());
    while start < v.len()
        invariant
            start <= v.len(),
            lines_of(v@) == line_views(out@) + lines_of(v@.skip(start as int)),
        decreases v.len() - start,
    {
        let mut end: usize = start;
        while end < v.len() && v[end] != '\n'
            invariant
                start <= end <= v.len(),
                forall|k: int| start <= k < end ==> v@[k] != '\n',
            decreases v.len() - end,
        {
            end += 1;
        }
        let ghost rest = v@.skip(start as int);
        let ghost before = line_views(out@);
        proof {
            assert forall|k: int| 0 <= k < end - start implies rest[k] != '\n' by {
                assert(rest[k] == v@[start + k]);
            }
            lemma_line_length_is(rest, end - start);
        }
        if end < v.len() {
            let stop: usize = if end > start && v[end - 1] == '\r' {
                (end - 1) as usize
            } else {
                end
            };
            let line = slice(v, start, stop);
            proof {
                let raw = rest.take(end - start);
                assert(raw == v@.subrange(start as int, end as int));
                assert(line@ == without_carriage_return(raw));
                assert(rest.skip(end - start + 1) == v@.skip(end + 1));
                assert(lines_of(rest) == seq![line@] + lines_of(v@.skip(end + 1)));
            }
            out.push(line);
            proof {
                assert(line_views(out@) == before + seq![line@]);
            }
            start = end + 1;
        } else {
            let line = slice(v, start, end);
            proof {
                assert(line@ == rest);
                assert(lines_of(rest) == seq![rest]);
                assert(v@.skip(end as int).len() == 0);
                assert(lines_of(v@.skip(end as int)) == Seq::<Seq<char>>::empty());
            }
            out.push(line);
            proof {
                assert(line_views(out@) == before + seq![line@]);
            }
            start = end;
        }
    }
    proof {
        assert(v@.skip(start as int).len() == 0);
    }
    out
}

} // verus!
