//! Compacting generated XML text.

use vstd::prelude::*;
use vstd::string::*;

verus! {

/// The characters that count as whitespace: those with the Unicode property
/// `White_Space`.
pub open spec fn is_space(c: char) -> bool {
    let n = c as u32;
    (0x09 <= n && n <= 0x0D) || n == 0x20 || n == 0x85 || n == 0xA0 || n == 0x1680 || (0x2000 <= n
        && n <= 0x200A) || n == 0x2028 || n == 0x2029 || n == 0x202F || n == 0x205F || n == 0x3000
}

/// Whether a character is whitespace.
pub fn is_whitespace(c: char) -> (r: bool)
    ensures
        r == is_space(c),
{
    let n: u32 = c as u32;
    (0x09 <= n && n <= 0x0D) || n == 0x20 || n == 0x85 || n == 0xA0 || n == 0x1680 || (0x2000 <= n
        && n <= 0x200A) || n == 0x2028 || n == 0x2029 || n == 0x202F || n == 0x205F || n == 0x3000
}

/// A line without the whitespace at its start.
pub open spec fn trim_start(s: Seq<char>) -> Seq<char>
    decreases s.len(),
{
    if s.len() > 0 && is_space(s[0]) {
        trim_start(s.drop_first())
    } else {
        s
    }
}

/// A line without the whitespace at its end.
pub open spec fn trim_end(s: Seq<char>) -> Seq<char>
    decreases s.len(),
{
    if s.len() > 0 && is_space(s.last()) {
        trim_end(s.drop_last())
    } else {
        s
    }
}

/// A line without the whitespace at either end.
pub open spec fn trim(s: Seq<char>) -> Seq<char> {
    trim_end(trim_start(s))
}

/// The length of the first line of a text: the number of characters before
/// the first line feed, or all of them where there is none.
pub open spec fn first_line_len(s: Seq<char>) -> nat
    decreases s.len(),
{
    if s.len() == 0 || s[0] == '\n' {
        0
    } else {
        1 + first_line_len(s.drop_first())
    }
}

/// The compact form of a text: its lines, split at each line feed, each
/// trimmed at both ends, and joined with nothing between them.
pub open spec fn compact(s: Seq<char>) -> Seq<char>
    decreases s.len(),
{
    let n = first_line_len(s) as int;
    if n < s.len() {
        trim(s.take(n)) + compact(s.skip(n + 1))
    } else {
        trim(s)
    }
}

/// True of a text that holds no line feed.
pub open spec fn single_line(s: Seq<char>) -> bool {
    forall|i: int| 0 <= i < s.len() ==> s[i] != '\n'
}

/// True of a text that neither starts nor ends with whitespace.
pub open spec fn tight(s: Seq<char>) -> bool {
    s.len() == 0 || (!is_space(s[0]) && !is_space(s.last()))
}

/// The first line ends where the first line feed stands.
pub proof fn lemma_first_line_at(s: Seq<char>, n: int)
    requires
        0 <= n <= s.len(),
        forall|j: int| 0 <= j < n ==> s[j] != '\n',
        n == s.len() || s[n] == '\n',
    ensures
        first_line_len(s) == n,
    decreases n,
{
    if n > 0 {
        lemma_first_line_at(s.drop_first(), n - 1);
    }
}

/// The first line is no longer than the text and holds no line feed.
pub proof fn lemma_first_line_bounds(s: Seq<char>)
    ensures
        first_line_len(s) <= s.len(),
        forall|j: int| 0 <= j < first_line_len(s) ==> s[j] != '\n',
        first_line_len(s) < s.len() ==> s[first_line_len(s) as int] == '\n',
    decreases s.len(),
{
    if !(s.len() == 0 || s[0] == '\n') {
        let t = s.drop_first();
        lemma_first_line_bounds(t);
        assert forall|j: int| 0 <= j < first_line_len(s) implies s[j] != '\n' by {
            if j > 0 {
                assert(s[j] == t[j - 1]);
            }
        }
        if first_line_len(s) < s.len() {
            assert(s[first_line_len(s) as int] == t[first_line_len(t) as int]);
        }
    }
}

/// Trimming the start drops exactly the leading run of whitespace.
pub proof fn lemma_trim_start_at(s: Seq<char>, a: int)
    requires
        0 <= a <= s.len(),
        forall|j: int| 0 <= j < a ==> is_space(s[j]),
        a == s.len() || !is_space(s[a]),
    ensures
        trim_start(s) == s.skip(a),
    decreases a,
{
    if a > 0 {
        lemma_trim_start_at(s.drop_first(), a - 1);
        assert(s.drop_first().skip(a - 1) =~= s.skip(a));
    } else {
        assert(s.skip(0) =~= s);
    }
}

/// Trimming the end drops exactly the trailing run of whitespace.
pub proof fn lemma_trim_end_at(s: Seq<char>, b: int)
    requires
        0 <= b <= s.len(),
        forall|j: int| b <= j < s.len() ==> is_space(s[j]),
        b == 0 || !is_space(s[b - 1]),
    ensures
        trim_end(s) == s.take(b),
    decreases s.len() - b,
{
    if b < s.len() {
        lemma_trim_end_at(s.drop_last(), b);
        assert(s.drop_last().take(b) =~= s.take(b));
    } else {
        assert(s.take(b) =~= s);
    }
}

/// What is left of a line between its first and its last character that is
/// no whitespace.
pub proof fn lemma_trim_at(s: Seq<char>, a: int, b: int)
    requires
        0 <= a <= b <= s.len(),
        forall|j: int| 0 <= j < a ==> is_space(s[j]),
        a == s.len() || !is_space(s[a]),
        forall|j: int| b <= j < s.len() ==> is_space(s[j]),
        b == a || !is_space(s[b - 1]),
    ensures
        trim(s) == s.subrange(a, b),
{
    lemma_trim_start_at(s, a);
    let t = s.skip(a);
    assert forall|j: int| b - a <= j < t.len() implies is_space(t[j]) by {
        assert(t[j] == s[j + a]);
    }
    if b > a {
        assert(t[b - a - 1] == s[b - 1]);
    }
    lemma_trim_end_at(t, b - a);
    assert(t.take(b - a) =~= s.subrange(a, b));
}

/// A trimmed line is a part of the line, and starts and ends with a
/// character that is no whitespace.
pub proof fn lemma_trim_tight(s: Seq<char>) -> (r: (int, int))
    ensures
        0 <= r.0 <= r.1 <= s.len(),
        trim(s) == s.subrange(r.0, r.1),
        tight(trim(s)),
{
    let a = lemma_leading(s);
    let b = lemma_trailing(s, a);
    lemma_trim_at(s, a, b);
    (a, b)
}

proof fn lemma_leading(s: Seq<char>) -> (a: int)
    ensures
        0 <= a <= s.len(),
        forall|j: int| 0 <= j < a ==> is_space(s[j]),
        a == s.len() || !is_space(s[a]),
    decreases s.len(),
{
    if s.len() > 0 && is_space(s[0]) {
        let t = s.drop_first();
        let k = lemma_leading(t);
        assert forall|j: int| 0 <= j < k + 1 implies is_space(s[j]) by {
            if j > 0 {
                assert(s[j] == t[j - 1]);
            }
        }
        if k + 1 < s.len() {
            assert(s[k + 1] == t[k]);
        }
        k + 1
    } else {
        0
    }
}

proof fn lemma_trailing(s: Seq<char>, a: int) -> (b: int)
    requires
        0 <= a <= s.len(),
    ensures
        a <= b <= s.len(),
        forall|j: int| b <= j < s.len() ==> is_space(s[j]),
        b == a || !is_space(s[b - 1]),
    decreases s.len() - a,
{
    if s.len() > a && is_space(s.last()) {
        let t = s.drop_last();
        let k = lemma_trailing(t, a);
        assert forall|j: int| k <= j < s.len() implies is_space(s[j]) by {
            if j < t.len() {
                assert(s[j] == t[j]);
            }
        }
        if k > a {
            assert(s[k - 1] == t[k - 1]);
        }
        k
    } else {
        s.len() as int
    }
}

/// A text that neither starts nor ends with whitespace is its own trimmed
/// form.
pub proof fn lemma_trim_of_tight(s: Seq<char>)
    requires
        tight(s),
    ensures
        trim(s) == s,
{
}

/// Two texts that are tight are tight when joined.
proof fn lemma_tight_join(x: Seq<char>, y: Seq<char>)
    requires
        tight(x),
        tight(y),
    ensures
        tight(x + y),
{
    if x.len() == 0 {
        assert(x + y =~= y);
    } else if y.len() == 0 {
        assert(x + y =~= x);
    } else {
        assert((x + y)[0] == x[0]);
        assert((x + y).last() == y.last());
    }
}

/// A compact text holds no line feed, and neither starts nor ends with
/// whitespace.
pub proof fn lemma_compact_shape(s: Seq<char>)
    ensures
        single_line(compact(s)),
        tight(compact(s)),
    decreases s.len(),
{
    lemma_first_line_bounds(s);
    let n = first_line_len(s) as int;
    if n < s.len() {
        let line = s.take(n);
        let rest = s.skip(n + 1);
        lemma_compact_shape(rest);
        let r = lemma_trim_tight(line);
        let x = trim(line);
        let y = compact(rest);
        assert forall|i: int| 0 <= i < x.len() implies x[i] != '\n' by {
            assert(x[i] == line[i + r.0]);
            assert(line[i + r.0] == s[i + r.0]);
        }
        assert forall|i: int| 0 <= i < (x + y).len() implies (x + y)[i] != '\n' by {
            if i >= x.len() {
                assert((x + y)[i] == y[i - x.len()]);
            }
        }
        lemma_tight_join(x, y);
    } else {
        let r = lemma_trim_tight(s);
        let x = trim(s);
        assert forall|i: int| 0 <= i < x.len() implies x[i] != '\n' by {
            assert(x[i] == s[i + r.0]);
        }
    }
}

/// Compacting a text that is compact already changes nothing.
pub proof fn lemma_compact_idempotent(s: Seq<char>)
    ensures
        compact(compact(s)) == compact(s),
{
    let t = compact(s);
    lemma_compact_shape(s);
    lemma_first_line_at(t, t.len() as int);
    lemma_trim_of_tight(t);
}

/// A text of one line compacts to that line, trimmed.
pub proof fn lemma_compact_single_line(s: Seq<char>)
    requires
        single_line(s),
    ensures
        compact(s) == trim(s),
{
    lemma_first_line_at(s, s.len() as int);
}

/// A text that ends its first line at `n` compacts to that line, trimmed,
/// followed by the compact form of what comes after the line feed.
pub proof fn lemma_compact_split(s: Seq<char>, n: int)
    requires
        0 <= n < s.len(),
        forall|j: int| 0 <= j < n ==> s[j] != '\n',
        s[n] == '\n',
    ensures
        compact(s) == trim(s.take(n)) + compact(s.skip(n + 1)),
{
    lemma_first_line_at(s, n);
}

/// The characters of a string, in order.
pub fn to_chars(s: &str) -> (v: Vec<char>)
    ensures
        v@ == s@,
{
    let mut v: Vec<char> = Vec::new();
    for c in it: s.chars()
        invariant
            it.seq() == s@,
            v@ == it.seq().take(it.index() as int),
    {
        v.push(c);
    }
    v
}

/// `String::push` of std appends one character to the end of the string and
/// changes nothing else.
pub assume_specification[ String::push ](s: &mut String, ch: char)
    ensures
        final(s)@ == old(s)@.push(ch),
;

/// Where the line that starts at `start` ends: at the next line feed, or at
/// the end of the text.
fn line_end(v: &Vec<char>, start: usize) -> (e: usize)
    requires
        start <= v.len(),
    ensures
        start <= e <= v.len(),
        forall|j: int| start <= j < e ==> v@[j] != '\n',
        e == v.len() || v@[e as int] == '\n',
{
    let mut e: usize = start;
    while e < v.len() && v[e] != '\n'
        invariant
            start <= e <= v.len(),
            forall|j: int| start <= j < e ==> v@[j] != '\n',
        decreases v.len() - e,
    {
        e += 1;
    }
    e
}

/// The bounds of what trimming leaves of the line `v[start..end]`.
fn trim_bounds(v: &Vec<char>, start: usize, end: usize) -> (r: (usize, usize))
    requires
        start <= end <= v.len(),
    ensures
        start <= r.0 <= r.1 <= end,
        trim(v@.subrange(start as int, end as int)) == v@.subrange(r.0 as int, r.1 as int),
{
    let mut a: usize = start;
    while a < end && is_whitespace(v[a])
        invariant
            start <= a <= end <= v.len(),
            forall|j: int| start <= j < a ==> is_space(v@[j]),
        decreases end - a,
    {
        a += 1;
    }
    let mut b: usize = end;
    while b > a && is_whitespace(v[b - 1])
        invariant
            a <= b <= end <= v.len(),
            forall|j: int| b <= j < end ==> is_space(v@[j]),
        decreases b,
    {
        b -= 1;
    }
    proof {
        let line = v@.subrange(start as int, end as int);
        assert forall|j: int| 0 <= j < a - start implies is_space(line[j]) by {
            assert(line[j] == v@[j + start]);
        }
        assert forall|j: int| b - start <= j < line.len() implies is_space(line[j]) by {
            assert(line[j] == v@[j + start]);
        }
        lemma_trim_at(line, a - start, b - start);
        assert(line.subrange(a - start, b - start) =~= v@.subrange(a as int, b as int));
    }
    (a, b)
}

/// Appends the characters `v[from..to]` to `out`.
fn push_range(out: &mut String, v: &Vec<char>, from: usize, to: usize)
    requires
        from <= to <= v.len(),
    ensures
        final(out)@ == old(out)@ + v@.subrange(from as int, to as int),
{
    let mut k: usize = from;
    while k < to
        invariant
            from <= k <= to <= v.len(),
            out@ == old(out)@ + v@.subrange(from as int, k as int),
        decreases to - k,
    {
        out.push(v[k]);
        assert(v@.subrange(from as int, k + 1) =~= v@.subrange(from as int, k as int).push(
            v@[k as int],
        ));
        k += 1;
    }
}

/// The compact form of a text, given as its characters.
pub fn compact_chars(v: &Vec<char>) -> (out: String)
    ensures
        out@ == compact(v@),
{
    let mut out = String::new();
    let mut start: usize = 0;
    proof {
        assert(v@.skip(0) =~= v@);
        assert(out@ + compact(v@) =~= compact(v@));
    }
    loop
        invariant_except_break
            start <= v.len(),
            out@ + compact(v@.skip(start as int)) == compact(v@),
        ensures
            out@ == compact(v@),
        decreases v.len() - start,
    {
        let end = line_end(v, start);
        let (a, b) = trim_bounds(v, start, end);
        let ghost before = out@;
        let ghost rest = v@.skip(start as int);
        push_range(&mut out, v, a, b);
        proof {
            let line = v@.subrange(start as int, end as int);
            assert(rest.take(end - start) =~= line);
            assert forall|j: int| 0 <= j < end - start implies rest[j] != '\n' by {
                assert(rest[j] == v@[j + start]);
            }
            if end < v.len() {
                assert(rest[end - start] == v@[end as int]);
                lemma_compact_split(rest, end - start);
                assert(rest.skip(end - start + 1) =~= v@.skip(end + 1));
                assert(out@ + compact(v@.skip(end + 1)) =~= before + compact(rest));
            } else {
                assert(rest =~= line);
                lemma_compact_single_line(rest);
                assert(out@ =~= before + compact(rest));
            }
        }
        if end >= v.len() {
            break ;
        }
        start = end + 1;
    }
    out
}

/// Compacts generated XML text: splits it at each line feed, trims every
/// line at both ends, and joins the lines with nothing between them.
///
/// Whitespace that lies inside a line stays. Whitespace at the edge of a line
/// goes, also where it belonged to a text node.
///
/// The result holds no line feed, neither starts nor ends with whitespace,
/// and is its own compact form.
pub fn remove_indent(s: &str) -> (out: String)
    ensures
        out@ == compact(s@),
        compact(out@) == out@,
        single_line(out@),
        tight(out@),
{
    let v = to_chars(s);
    proof {
        lemma_compact_shape(v@);
        lemma_compact_idempotent(v@);
    }
    compact_chars(&v)
}

/// The form in which text is handed out: as it is where the caller asks for
/// the pretty form, compact where the caller asks for the compact form or
/// for neither.
pub open spec fn normalized(s: Seq<char>, pretty: Option<bool>) -> Seq<char> {
    if pretty == Some(true) {
        s
    } else {
        compact(s)
    }
}

/// Puts generated text into the form that the caller asked for.
pub fn normalize(text: String, pretty: Option<bool>) -> (out: String)
    ensures
        out@ == normalized(text@, pretty),
{
    match pretty {
        Some(true) => text,
        _ => remove_indent(text.as_str()),
    }
}

/// Text that was handed out in compact form is not changed by compacting it
/// once more.
pub proof fn lemma_normalized_idempotent(s: Seq<char>, pretty: Option<bool>)
    requires
        pretty != Some(true),
    ensures
        normalized(normalized(s, pretty), pretty) == normalized(s, pretty),
{
    lemma_compact_idempotent(s);
}

} // verus!
