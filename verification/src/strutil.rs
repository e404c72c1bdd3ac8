//! Character-level string utilities shared by the host and the capabilities:
//! decimal rendering of port numbers, prefix and substring search, and
//! line splitting as the classifier and the resolvers need them.

use vstd::prelude::*;
use vstd::string::StrSliceExecFns;

verus! {

/// The decimal digit character for `d`.
pub open spec fn digit_char(d: nat) -> char
    recommends
        d < 10,
{
    ((48 + d) as u8) as char
}

/// The decimal rendering of `n`, most significant digit first.
pub open spec fn spec_dec(n: nat) -> Seq<char>
    decreases n,
{
    if n < 10 {
        seq![digit_char(n)]
    } else {
        spec_dec(n / 10).push(digit_char(n % 10))
    }
}

/// Relies on `String::push` from std: appends exactly one character.
#[verifier::external_body]
pub(crate) fn push_char(s: &mut String, c: char)
    ensures
        final(s)@ == old(s)@.push(c),
{
    s.push(c);
}

fn digit_of(d: u8) -> (c: char)
    requires
        d < 10,
    ensures
        c == digit_char(d as nat),
{
    (48 + d) as char
}

/// Renders `n` in decimal.
pub fn u64_dec(n: u64) -> (r: String)
    ensures
        r@ == spec_dec(n as nat),
    decreases n,
{
    if n < 10 {
        let mut s = String::new();
        push_char(&mut s, digit_of(n as u8));
        assert(s@ =~= spec_dec(n as nat));
        s
    } else {
        let mut s = u64_dec(n / 10);
        push_char(&mut s, digit_of((n % 10) as u8));
        s
    }
}

/// The characters of `s`, as a vector.
pub fn str_chars(s: &str) -> (v: Vec<char>)
    ensures
        v@ == s@,
{
    let len = s.unicode_len();
    let mut v: Vec<char> = Vec::new();
    let mut i: usize = 0;
    while i < len
        invariant
            i <= len,
            len == s@.len(),
            v@ == s@.take(i as int),
        decreases len - i,
    {
        v.push(s.get_char(i));
        assert(v@ =~= s@.take(i + 1));
        i = i + 1;
    }
    assert(v@ =~= s@);
    v
}

/// The string holding `v[from..to]`.
pub fn chars_string(v: &Vec<char>, from: usize, to: usize) -> (r: String)
    requires
        from <= to <= v@.len(),
    ensures
        r@ == v@.subrange(from as int, to as int),
{
    let mut s = String::new();
    let mut i: usize = from;
    while i < to
        invariant
            from <= i <= to <= v@.len(),
            s@ == v@.subrange(from as int, i as int),
        decreases to - i,
    {
        push_char(&mut s, v[i]);
        assert(s@ =~= v@.subrange(from as int, i + 1));
        i = i + 1;
    }
    s
}

/// The characters `v[from..to]`, as a vector.
pub fn char_range(v: &Vec<char>, from: usize, to: usize) -> (r: Vec<char>)
    requires
        from <= to <= v@.len(),
    ensures
        r@ == v@.subrange(from as int, to as int),
{
    let mut r: Vec<char> = Vec::new();
    let mut i: usize = from;
    while i < to
        invariant
            from <= i <= to <= v@.len(),
            r@ == v@.subrange(from as int, i as int),
        decreases to - i,
    {
        r.push(v[i]);
        assert(r@ =~= v@.subrange(from as int, i + 1));
        i = i + 1;
    }
    r
}

/// Whether `p` is a prefix of `s`.
pub open spec fn spec_starts_with(s: Seq<char>, p: Seq<char>) -> bool {
    p.len() <= s.len() && s.take(p.len() as int) == p
}

/// Whether the characters of `v` start with the characters of `p`.
pub fn chars_start_with(v: &Vec<char>, p: &str) -> (r: bool)
    ensures
        r == spec_starts_with(v@, p@),
{
    let plen = p.unicode_len();
    if plen > v.len() {
        return false;
    }
    let mut i: usize = 0;
    while i < plen
        invariant
            i <= plen,
            plen == p@.len() <= v@.len(),
            forall|j: int| 0 <= j < i ==> v@[j] == p@[j],
        decreases plen - i,
    {
        if v[i] != p.get_char(i) {
            assert(v@.take(plen as int)[i as int] != p@[i as int]);
            return false;
        }
        i = i + 1;
    }
    assert(v@.take(plen as int) =~= p@);
    true
}

/// The first index at which `needle` occurs in `hay`, if any: `Some(i)` is
/// the earliest match, `None` means no match at all.
pub fn find_seq(hay: &Vec<char>, needle: &Vec<char>) -> (r: Option<usize>)
    ensures
        match r {
            Some(i) => i + needle@.len() <= hay@.len()
                && hay@.subrange(i as int, i + needle@.len()) == needle@
                && forall|j: int|
                    0 <= j < i ==> #[trigger] hay@.subrange(j, j + needle@.len()) != needle@,
            None => forall|j: int|
                0 <= j && j + needle@.len() <= hay@.len()
                    ==> #[trigger] hay@.subrange(j, j + needle@.len()) != needle@,
        },
{
    let nlen = needle.len();
    let hlen = hay.len();
    if nlen > hlen {
        return None;
    }
    let mut i: usize = 0;
    while i <= hlen - nlen
        invariant
            nlen == needle@.len(),
            hlen == hay@.len(),
            nlen <= hlen,
            i <= hlen - nlen + 1,
            forall|j: int| 0 <= j < i ==> #[trigger] hay@.subrange(j, j + needle@.len()) != needle@,
        decreases hlen - nlen - i + 1,
    {
        let mut k: usize = 0;
        let mut matched = true;
        while k < nlen && matched
            invariant
                nlen == needle@.len(),
                hlen == hay@.len(),
                i + nlen <= hlen,
                k <= nlen,
                matched ==> forall|m: int| 0 <= m < k ==> hay@[i + m] == needle@[m],
                !matched ==> nlen > 0,
                !matched ==> hay@.subrange(i as int, i + needle@.len()) != needle@,
            decreases nlen - k + (if matched { 1int } else { 0int }),
        {
            if hay[i + k] != needle[k] {
                assert(hay@.subrange(i as int, i + needle@.len())[k as int] != needle@[k as int]);
                matched = false;
            } else {
                k = k + 1;
            }
        }
        if matched {
            assert(hay@.subrange(i as int, i + needle@.len()) =~= needle@);
            return Some(i);
        }
        i = i + 1;
    }
    None
}

/// Whether `needle` occurs inside `hay`.
pub open spec fn spec_contains(hay: Seq<char>, needle: Seq<char>) -> bool {
    exists|i: int|
        0 <= i && i + needle.len() <= hay.len() && #[trigger] hay.subrange(i, i + needle.len())
            == needle
}

/// The index of the first occurrence of `c` in `s`.
pub open spec fn spec_find_char(s: Seq<char>, c: char) -> Option<int>
    decreases s.len(),
{
    if s.len() == 0 {
        None
    } else if s[0] == c {
        Some(0int)
    } else {
        match spec_find_char(s.drop_first(), c) {
            Some(i) => Some(i + 1),
            None => None,
        }
    }
}

/// What `spec_find_char` returns: the first occurrence, or none at all.
pub proof fn lemma_find_char(s: Seq<char>, c: char)
    ensures
        match spec_find_char(s, c) {
            Some(i) => 0 <= i < s.len() && s[i] == c && forall|j: int| 0 <= j < i ==> s[j] != c,
            None => forall|j: int| 0 <= j < s.len() ==> s[j] != c,
        },
    decreases s.len(),
{
    if s.len() == 0 {
    } else if s[0] == c {
    } else {
        lemma_find_char(s.drop_first(), c);
        assert(forall|j: int| 0 < j < s.len() ==> s[j] == s.drop_first()[j - 1]);
    }
}

/// A line with one trailing carriage return removed.
pub open spec fn spec_strip_cr(s: Seq<char>) -> Seq<char> {
    if s.len() > 0 && s.last() == '\r' {
        s.drop_last()
    } else {
        s
    }
}

/// The lines of `s`: split at each line feed, a carriage return directly
/// before a line feed is stripped, and a final empty segment after a
/// trailing line feed is dropped.
pub open spec fn spec_split_lines(s: Seq<char>) -> Seq<Seq<char>>
    decreases s.len(),
    via spec_split_lines_dec
{
    if s.len() == 0 {
        seq![]
    } else {
        match spec_find_char(s, '\n') {
            Some(i) => seq![spec_strip_cr(s.take(i))] + spec_split_lines(s.skip(i + 1)),
            None => seq![s],
        }
    }
}

#[via_fn]
proof fn spec_split_lines_dec(s: Seq<char>) {
    lemma_find_char(s, '\n');
}

/// The first occurrence of `c` in `v` at or after `from`.
fn find_char(v: &Vec<char>, from: usize, c: char) -> (r: Option<usize>)
    requires
        from <= v@.len(),
    ensures
        match r {
            Some(i) => from <= i < v@.len() && v@[i as int] == c && forall|j: int|
                from <= j < i ==> v@[j] != c,
            None => forall|j: int| from <= j < v@.len() ==> v@[j] != c,
        },
{
    let mut i: usize = from;
    while i < v.len()
        invariant
            from <= i <= v@.len(),
            forall|j: int| from <= j < i ==> v@[j] != c,
        decreases v@.len() - i,
    {
        if v[i] == c {
            return Some(i);
        }
        i = i + 1;
    }
    None
}

/// Splits `v` into lines as `spec_split_lines` describes.
pub fn split_lines(v: &Vec<char>) -> (r: Vec<String>)
    ensures
        r@.len() == spec_split_lines(v@).len(),
        forall|i: int| 0 <= i < r@.len() ==> r@[i]@ == #[trigger] spec_split_lines(v@)[i],
{
    let ghost model = spec_split_lines(v@);
    let mut out: Vec<String> = Vec::new();
    let mut pos: usize = 0;
    assert(v@.skip(0) =~= v@);
    while pos < v.len()
        invariant
            pos <= v@.len(),
            model == spec_split_lines(v@),
            out@.len() + spec_split_lines(v@.skip(pos as int)).len() == model.len(),
            forall|i: int| 0 <= i < out@.len() ==> out@[i]@ == #[trigger] model[i],
            forall|i: int|
                out@.len() <= i < model.len() ==> #[trigger] model[i] == spec_split_lines(
                    v@.skip(pos as int),
                )[i - out@.len()],
        decreases v@.len() - pos,
    {
        let ghost rest = v@.skip(pos as int);
        proof {
            lemma_find_char(rest, '\n');
            assert(forall|j: int| 0 <= j < rest.len() ==> rest[j] == v@[pos + j]);
        }
        match find_char(v, pos, '\n') {
            Some(i) => {
                proof {
                    match spec_find_char(rest, '\n') {
                        Some(m) => {
                            assert(rest[m] == '\n');
                            assert(v@[pos + m] == '\n');
                            assert(m == i - pos) by {
                                if m < i - pos {
                                    assert(v@[pos + m] != '\n');
                                } else if m > i - pos {
                                    assert(rest[i - pos] == '\n');
                                }
                            }
                        },
                        None => {
                            assert(rest[i - pos] == '\n');
                        },
                    }
                    assert(spec_find_char(rest, '\n') == Some(i - pos as int));
                }
                let line_end = if i > pos && v[i - 1] == '\r' {
                    i - 1
                } else {
                    i
                };
                proof {
                    assert(rest.take(i - pos as int) =~= v@.subrange(pos as int, i as int));
                    assert(spec_strip_cr(rest.take(i - pos as int)) =~= v@.subrange(
                        pos as int,
                        line_end as int,
                    ));
                    assert(rest.skip(i - pos as int + 1) =~= v@.skip(i + 1));
                }
                let line = chars_string(v, pos, line_end);
                out.push(line);
                pos = i + 1;
            },
            None => {
                proof {
                    match spec_find_char(rest, '\n') {
                        Some(m) => {
                            assert(v@[pos + m] != '\n');
                        },
                        None => {},
                    }
                    assert(spec_find_char(rest, '\n') is None);
                    assert(rest =~= v@.subrange(pos as int, v@.len() as int));
                }
                let line = chars_string(v, pos, v.len());
                out.push(line);
                pos = v.len();
                assert(v@.skip(pos as int) =~= Seq::<char>::empty());
            },
        }
    }
    assert(v@.skip(pos as int) =~= Seq::<char>::empty());
    out
}

/// Whether `needle` occurs inside `hay` as a contiguous run of characters.
pub fn str_contains(hay: &str, needle: &str) -> (r: bool)
    ensures
        r == spec_contains(hay@, needle@),
{
    let h = str_chars(hay);
    let n = str_chars(needle);
    match find_seq(&h, &n) {
        Some(i) => {
            assert(spec_contains(hay@, needle@)) by {
                assert(hay@.subrange(i as int, i + needle@.len()) == needle@);
            }
            true
        },
        None => false,
    }
}

} // verus!
