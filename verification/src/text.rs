//! Character-level helpers on `String` that vstd does not specify.

use vstd::prelude::*;

verus! {

/// Appends one character: a wrapper of `String::push`, which std documents as
/// appending the given char to the end of the string.
#[verifier::external_body]
pub fn push_char(s: &mut String, c: char)
    ensures
        final(s)@ == old(s)@.push(c),
{
    s.push(c);
}

/// Removes the last character: a wrapper of `String::pop`, which std documents
/// as removing the last character and returning it, or `None` when empty.
#[verifier::external_body]
pub fn pop_char(s: &mut String) -> (r: Option<char>)
    ensures
        old(s)@.len() == 0 ==> r is None && final(s)@ == old(s)@,
        old(s)@.len() > 0 ==> r == Some(old(s)@.last()) && final(s)@ == old(s)@.drop_last(),
{
    s.pop()
}

/// Unicode general category Cc, as `char::is_control` decides it.
pub open spec fn is_control_spec(c: char) -> bool {
    (c as u32) <= 0x1f || (0x7f <= (c as u32) && (c as u32) <= 0x9f)
}

/// Whether `c` is a control character (category Cc).
pub fn is_control(c: char) -> (r: bool)
    ensures
        r == is_control_spec(c),
{
    let v = c as u32;
    v <= 0x1f || (0x7f <= v && v <= 0x9f)
}

/// Whether two strings hold the same characters.
pub fn str_eq(a: &str, b: &str) -> (r: bool)
    ensures
        r == (a@ == b@),
{
    let n = a.unicode_len();
    if n != b.unicode_len() {
        return false;
    }
    let mut i: usize = 0;
    while i < n
        invariant
            n == a@.len(),
            n == b@.len(),
            i <= n,
            a@.subrange(0, i as int) == b@.subrange(0, i as int),
        decreases n - i,
    {
        if a.get_char(i) != b.get_char(i) {
            return false;
        }
        assert(a@.subrange(0, i + 1) =~= a@.subrange(0, i as int).push(a@[i as int]));
        assert(b@.subrange(0, i + 1) =~= b@.subrange(0, i as int).push(b@[i as int]));
        i = i + 1;
    }
    assert(a@ =~= a@.subrange(0, n as int));
    assert(b@ =~= b@.subrange(0, n as int));
    true
}

/// `pat` occurs in `s` starting at position `i`.
pub open spec fn occurs_at(s: Seq<char>, pat: Seq<char>, i: int) -> bool {
    0 <= i && i + pat.len() <= s.len() && s.subrange(i, i + pat.len()) == pat
}

/// `pat` occurs somewhere in `s`, as `str::contains` decides it.
pub open spec fn contains_spec(s: Seq<char>, pat: Seq<char>) -> bool {
    exists|i: int| occurs_at(s, pat, i)
}

/// Whether `pat` occurs at position `i` of `s`.
fn matches_at(s: &str, n: usize, pat: &str, m: usize, i: usize) -> (r: bool)
    requires
        n == s@.len(),
        m == pat@.len(),
        i + m <= n,
    ensures
        r == occurs_at(s@, pat@, i as int),
{
    let mut j: usize = 0;
    while j < m
        invariant
            n == s@.len(),
            m == pat@.len(),
            i + m <= n,
            j <= m,
            forall|k: int| 0 <= k < j ==> s@[i + k] == pat@[k],
        decreases m - j,
    {
        if s.get_char(i + j) != pat.get_char(j) {
            assert(s@.subrange(i as int, i + m)[j as int] != pat@[j as int]);
            return false;
        }
        j = j + 1;
    }
    assert(s@.subrange(i as int, i + m) =~= pat@);
    true
}

/// Whether `pat` occurs in `s`.
pub fn contains_text(s: &str, pat: &str) -> (r: bool)
    ensures
        r == contains_spec(s@, pat@),
{
    let n = s.unicode_len();
    let m = pat.unicode_len();
    if m > n {
        return false;
    }
    let mut i: usize = 0;
    loop
        invariant
            n == s@.len(),
            m == pat@.len(),
            m <= n,
            i <= n - m,
            forall|k: int| 0 <= k < i ==> !occurs_at(s@, pat@, k),
        decreases n - m - i,
    {
        if matches_at(s, n, pat, m, i) {
            return true;
        }
        if i == n - m {
            return false;
        }
        i = i + 1;
    }
}

/// The field separator of a step line, `" | "`, starts at position `i`.
pub open spec fn sep_at(s: Seq<char>, i: int) -> bool {
    0 <= i && i + 3 <= s.len() && s[i] == ' ' && s[i + 1] == '|' && s[i + 2] == ' '
}

/// First separator at or after `i`, or -1 when there is none.
pub open spec fn first_sep_from(s: Seq<char>, i: int) -> int
    decreases s.len() - i,
{
    if i < 0 || i + 3 > s.len() {
        -1
    } else if sep_at(s, i) {
        i
    } else {
        first_sep_from(s, i + 1)
    }
}

/// A separator found from `i` lies at or after `i`, and is a separator.
pub proof fn lemma_first_sep_from(s: Seq<char>, i: int)
    ensures
        first_sep_from(s, i) == -1 || (i <= first_sep_from(s, i) && sep_at(
            s,
            first_sep_from(s, i),
        )),
    decreases s.len() - i,
{
    if i < 0 || i + 3 > s.len() {
    } else if sep_at(s, i) {
    } else {
        lemma_first_sep_from(s, i + 1);
    }
}

/// The fields of `s` from position `p` on, split at each `" | "` from left
/// to right, as `str::split(" | ")` yields them.
pub open spec fn fields_from(s: Seq<char>, p: int) -> Seq<Seq<char>>
    decreases s.len() - p,
{
    if p < 0 || p > s.len() {
        Seq::empty()
    } else {
        let q = first_sep_from(s, p);
        if q < 0 {
            seq![s.subrange(p, s.len() as int)]
        } else {
            proof {
                lemma_first_sep_from(s, p);
            }
            seq![s.subrange(p, q)] + fields_from(s, q + 3)
        }
    }
}

/// Field `n` (from 0) of a step line, if the line has that many fields.
pub open spec fn field_spec(s: Seq<char>, n: int) -> Option<Seq<char>> {
    let f = fields_from(s, 0);
    if 0 <= n < f.len() {
        Some(f[n])
    } else {
        None
    }
}

/// First separator at or after `from`.
fn find_sep(s: &str, n: usize, from: usize) -> (r: Option<usize>)
    requires
        n == s@.len(),
        from <= n,
    ensures
        match r {
            Some(q) => q == first_sep_from(s@, from as int),
            None => first_sep_from(s@, from as int) == -1,
        },
{
    let mut i = from;
    while 3 <= n - i
        invariant
            n == s@.len(),
            from <= i <= n,
            first_sep_from(s@, from as int) == first_sep_from(s@, i as int),
        decreases n - i,
    {
        if s.get_char(i) == ' ' && s.get_char(i + 1) == '|' && s.get_char(i + 2) == ' ' {
            return Some(i);
        }
        i = i + 1;
    }
    None
}

/// Field `n` of a line split at `" | "` (`line.split(" | ").nth(n)`).
pub fn split_field(s: &str, n: usize) -> (r: Option<String>)
    ensures
        match r {
            Some(f) => field_spec(s@, n as int) == Some(f@),
            None => field_spec(s@, n as int) is None,
        },
{
    let len = s.unicode_len();
    let mut p: usize = 0;
    let mut k: usize = 0;
    let ghost mut prefix: Seq<Seq<char>> = Seq::empty();
    loop
        invariant
            len == s@.len(),
            p <= len,
            k <= n,
            prefix.len() == k,
            fields_from(s@, 0) == prefix + fields_from(s@, p as int),
        decreases len - p,
    {
        let q = find_sep(s, len, p);
        proof {
            lemma_first_sep_from(s@, p as int);
        }
        match q {
            None => {
                assert(fields_from(s@, p as int) == seq![s@.subrange(p as int, len as int)]);
                if k == n {
                    let f = String::from_str(s.substring_char(p, len));
                    return Some(f);
                } else {
                    return None;
                }
            },
            Some(q) => {
                assert(fields_from(s@, p as int) == seq![s@.subrange(p as int, q as int)]
                    + fields_from(s@, q + 3));
                if k == n {
                    let f = String::from_str(s.substring_char(p, q));
                    return Some(f);
                }
                proof {
                    let head = s@.subrange(p as int, q as int);
                    assert(prefix + (seq![head] + fields_from(s@, q + 3)) =~= prefix.push(head)
                        + fields_from(s@, q + 3));
                    prefix = prefix.push(head);
                }
                p = q + 3;
                k = k + 1;
            },
        }
    }
}

/// Decimal digit character of `d < 10`.
pub open spec fn digit_of(d: nat) -> char {
    (d + '0' as nat) as char
}

/// Decimal text of a natural number, as `Display` writes it.
pub open spec fn nat_text(n: nat) -> Seq<char>
    decreases n,
{
    if n < 10 {
        seq![digit_of(n)]
    } else {
        nat_text(n / 10).push(digit_of(n % 10))
    }
}

/// Decimal text of `n`.
pub fn usize_text(n: usize) -> (r: String)
    ensures
        r@ == nat_text(n as nat),
    decreases n,
{
    if n < 10 {
        let mut r = String::new();
        push_char(&mut r, ((n as u8) + 48u8) as char);
        assert(r@ =~= seq![digit_of(n as nat)]);
        r
    } else {
        let mut r = usize_text(n / 10);
        let d = n % 10;
        push_char(&mut r, ((d as u8) + 48u8) as char);
        r
    }
}

/// Unicode `White_Space`, the characters that `str::trim` removes.
pub open spec fn is_white_space(c: char) -> bool {
    let v = c as u32;
    (0x09 <= v && v <= 0x0d) || v == 0x20 || v == 0x85 || v == 0xa0 || v == 0x1680 || (0x2000
        <= v && v <= 0x200a) || v == 0x2028 || v == 0x2029 || v == 0x202f || v == 0x205f || v
        == 0x3000
}

fn white_space(c: char) -> (r: bool)
    ensures
        r == is_white_space(c),
{
    let v = c as u32;
    (0x09 <= v && v <= 0x0d) || v == 0x20 || v == 0x85 || v == 0xa0 || v == 0x1680 || (0x2000
        <= v && v <= 0x200a) || v == 0x2028 || v == 0x2029 || v == 0x202f || v == 0x205f || v
        == 0x3000
}

/// `s` without its leading white space.
pub open spec fn trim_start_spec(s: Seq<char>) -> Seq<char>
    decreases s.len(),
{
    if s.len() > 0 && is_white_space(s[0]) {
        trim_start_spec(s.drop_first())
    } else {
        s
    }
}

/// `s` without its trailing white space.
pub open spec fn trim_end_spec(s: Seq<char>) -> Seq<char>
    decreases s.len(),
{
    if s.len() > 0 && is_white_space(s.last()) {
        trim_end_spec(s.drop_last())
    } else {
        s
    }
}

/// `s` with leading and trailing white space removed, as `str::trim` does.
pub open spec fn trim_spec(s: Seq<char>) -> Seq<char> {
    trim_end_spec(trim_start_spec(s))
}

/// Trimmed copy of `s`.
pub fn trim_text(s: &str) -> (r: String)
    ensures
        r@ == trim_spec(s@),
{
    let n = s.unicode_len();
    let mut lo: usize = 0;
    assert(s@.skip(0) =~= s@);
    while lo < n && white_space(s.get_char(lo))
        invariant
            n == s@.len(),
            lo <= n,
            trim_start_spec(s@) == trim_start_spec(s@.skip(lo as int)),
        decreases n - lo,
    {
        assert(s@.skip(lo as int).drop_first() =~= s@.skip(lo + 1));
        lo = lo + 1;
    }
    assert(trim_start_spec(s@.skip(lo as int)) == s@.skip(lo as int));
    let ghost t = s@.skip(lo as int);
    let mut hi: usize = n;
    while hi > lo && white_space(s.get_char(hi - 1))
        invariant
            n == s@.len(),
            lo <= hi <= n,
            t == s@.skip(lo as int),
            trim_end_spec(t) == trim_end_spec(s@.subrange(lo as int, hi as int)),
        decreases hi,
    {
        assert(s@.subrange(lo as int, hi as int).drop_last() =~= s@.subrange(
            lo as int,
            hi - 1,
        ));
        hi = hi - 1;
    }
    assert(t =~= s@.subrange(lo as int, n as int));
    String::from_str(s.substring_char(lo, hi))
}

/// Lines joined with `\n` between them, as `[..].join("\n")` does.
pub open spec fn join_lines(lines: Seq<Seq<char>>) -> Seq<char>
    decreases lines.len(),
{
    if lines.len() == 0 {
        Seq::empty()
    } else if lines.len() == 1 {
        lines[0]
    } else {
        join_lines(lines.drop_last()) + "\n"@ + lines.last()
    }
}

/// The views of a vector of strings.
pub open spec fn string_views(v: Seq<String>) -> Seq<Seq<char>> {
    v.map_values(|s: String| s@)
}

/// Lines `from..v.len()` of `v`, joined with `\n`.
pub fn join_tail(v: &Vec<String>, from: usize) -> (r: String)
    requires
        from <= v@.len(),
    ensures
        r@ == join_lines(string_views(v@.skip(from as int))),
{
    let mut out = String::new();
    let mut i = from;
    let ghost tail = string_views(v@.skip(from as int));
    while i < v.len()
        invariant
            from <= i <= v@.len(),
            tail == string_views(v@.skip(from as int)),
            out@ == join_lines(tail.take(i - from)),
        decreases v@.len() - i,
    {
        proof {
            reveal_strlit("\n");
            let t = tail.take(i + 1 - from);
            assert(t.drop_last() =~= tail.take(i - from));
            assert(t.last() == v@[i as int]@);
        }
        if i > from {
            out.append("\n");
        }
        out.append(v[i].as_str());
        proof {
            let t = tail.take(i + 1 - from);
            if i == from {
                assert(t.len() == 1);
                assert(join_lines(tail.take(0)) =~= Seq::<char>::empty());
                assert(out@ =~= t[0]);
            }
        }
        i = i + 1;
    }
    assert(tail.take(v@.len() - from) =~= tail);
    out
}

/// First `\n` at or after `i`, or -1 when there is none.
pub open spec fn first_nl_from(s: Seq<char>, i: int) -> int
    decreases s.len() - i,
{
    if i < 0 || i >= s.len() {
        -1
    } else if s[i] == '\n' {
        i
    } else {
        first_nl_from(s, i + 1)
    }
}

/// A newline found from `i` lies at or after `i`.
pub proof fn lemma_first_nl_from(s: Seq<char>, i: int)
    ensures
        first_nl_from(s, i) == -1 || (i <= first_nl_from(s, i) < s.len() && s[first_nl_from(
            s,
            i,
        )] == '\n'),
    decreases s.len() - i,
{
    if i < 0 || i >= s.len() {
    } else if s[i] == '\n' {
    } else {
        lemma_first_nl_from(s, i + 1);
    }
}

/// A line that ended in `\n`, without a `\r` just before it.
pub open spec fn strip_cr(l: Seq<char>) -> Seq<char> {
    if l.len() > 0 && l.last() == '\r' {
        l.drop_last()
    } else {
        l
    }
}

/// The lines of `s` from position `p` on, as `str::lines` yields them: split
/// at `\n`, a `\r` before the `\n` dropped, no empty line after a final `\n`.
pub open spec fn lines_from(s: Seq<char>, p: int) -> Seq<Seq<char>>
    decreases s.len() - p,
{
    if p < 0 || p >= s.len() {
        Seq::empty()
    } else {
        let q = first_nl_from(s, p);
        if q < 0 {
            seq![s.subrange(p, s.len() as int)]
        } else {
            proof {
                lemma_first_nl_from(s, p);
            }
            seq![strip_cr(s.subrange(p, q))] + lines_from(s, q + 1)
        }
    }
}

/// First `\n` at or after `from`.
fn find_nl(s: &str, n: usize, from: usize) -> (r: Option<usize>)
    requires
        n == s@.len(),
        from <= n,
    ensures
        match r {
            Some(q) => q == first_nl_from(s@, from as int),
            None => first_nl_from(s@, from as int) == -1,
        },
{
    let mut i = from;
    while i < n
        invariant
            n == s@.len(),
            from <= i <= n,
            first_nl_from(s@, from as int) == first_nl_from(s@, i as int),
        decreases n - i,
    {
        if s.get_char(i) == '\n' {
            return Some(i);
        }
        i = i + 1;
    }
    None
}

/// The lines of `s` (`s.lines()`).
pub fn lines_of(s: &str) -> (r: Vec<String>)
    ensures
        string_views(r@) == lines_from(s@, 0),
{
    let len = s.unicode_len();
    let mut out: Vec<String> = Vec::new();
    let mut p: usize = 0;
    loop
        invariant
            len == s@.len(),
            p <= len,
            lines_from(s@, 0) == string_views(out@) + lines_from(s@, p as int),
        decreases len - p,
    {
        if p == len {
            assert(string_views(out@) + Seq::<Seq<char>>::empty() =~= string_views(out@));
            return out;
        }
        let q = find_nl(s, len, p);
        proof {
            lemma_first_nl_from(s@, p as int);
        }
        let ghost prev = string_views(out@);
        match q {
            None => {
                let line = String::from_str(s.substring_char(p, len));
                out.push(line);
                assert(string_views(out@) =~= prev.push(s@.subrange(p as int, len as int)));
                assert(lines_from(s@, p as int) == seq![s@.subrange(p as int, len as int)]);
                assert(prev + seq![s@.subrange(p as int, len as int)] =~= string_views(out@)
                    + lines_from(s@, len as int));
                p = len;
            },
            Some(q) => {
                let mut end = q;
                if end > p && s.get_char(end - 1) == '\r' {
                    end = end - 1;
                }
                let line = String::from_str(s.substring_char(p, end));
                out.push(line);
                let ghost piece = strip_cr(s@.subrange(p as int, q as int));
                assert(line@ =~= piece) by {
                    let raw = s@.subrange(p as int, q as int);
                    if q > p && s@[q - 1] == '\r' {
                        assert(raw.last() == '\r');
                        assert(raw.drop_last() =~= s@.subrange(p as int, q - 1));
                    }
                }
                assert(string_views(out@) =~= prev.push(piece));
                assert(lines_from(s@, p as int) == seq![piece] + lines_from(s@, q + 1));
                assert(prev + (seq![piece] + lines_from(s@, q + 1)) =~= prev.push(piece)
                    + lines_from(s@, q + 1));
                p = q + 1;
            },
        }
    }
}

} // verus!
