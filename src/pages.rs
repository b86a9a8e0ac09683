//! Reading the page count out of what the page-count tool prints.
//!
//! The tool prints lines such as `Pages:          3`. The count is the last
//! blank-separated word of the first line that begins with `Pages:`, read as
//! an unsigned 32-bit decimal number with an optional leading `+`.
use vstd::prelude::*;

verus! {

/// The blanks that separate words: space, tab, line feed, vertical tab,
/// form feed and carriage return.
pub open spec fn is_blank(b: u8) -> bool {
    b == 32 || b == 9 || b == 10 || b == 11 || b == 12 || b == 13
}

pub open spec fn is_digit(b: u8) -> bool {
    48 <= b <= 57
}

/// The bytes of `Pages:`.
pub open spec fn pages_label() -> Seq<u8> {
    seq![80u8, 97u8, 103u8, 101u8, 115u8, 58u8]
}

/// Whether `Pages:` stands at position `i` of `s`.
pub open spec fn label_at(s: Seq<u8>, i: int) -> bool {
    0 <= i && i + 6 <= s.len() && s.subrange(i, i + 6) == pages_label()
}

/// The start of the first line at or after `i` that begins with `Pages:`;
/// `at_start` tells whether `i` itself begins a line.
pub open spec fn label_line_from(s: Seq<u8>, i: int, at_start: bool) -> Option<int>
    decreases s.len() - i,
{
    if i < 0 || i >= s.len() {
        None
    } else if at_start && label_at(s, i) {
        Some(i)
    } else {
        label_line_from(s, i + 1, s[i] == 10)
    }
}

/// The end of the line that holds position `i`: the next line feed, or the end of `s`.
pub open spec fn line_end(s: Seq<u8>, i: int) -> int
    decreases s.len() - i,
{
    if i < 0 || i >= s.len() {
        s.len() as int
    } else if s[i] == 10 {
        i
    } else {
        line_end(s, i + 1)
    }
}

/// `e` moved back over the blanks that end `s[a..e]`.
pub open spec fn trim_end(s: Seq<u8>, a: int, e: int) -> int
    decreases e - a,
{
    if e <= a {
        a
    } else if is_blank(s[e - 1]) {
        trim_end(s, a, e - 1)
    } else {
        e
    }
}

/// The start of the last word of `s[a..e]`, where `e` ends a word.
pub open spec fn word_start(s: Seq<u8>, a: int, e: int) -> int
    decreases e - a,
{
    if e <= a {
        a
    } else if is_blank(s[e - 1]) {
        e
    } else {
        word_start(s, a, e - 1)
    }
}

/// The last blank-separated word of the line that starts at `a`.
pub open spec fn last_word(s: Seq<u8>, a: int) -> Seq<u8> {
    let e = trim_end(s, a, line_end(s, a));
    s.subrange(word_start(s, a, e), e)
}

/// The number that decimal digits `t` stand for.
pub open spec fn digits_value(t: Seq<u8>) -> nat
    decreases t.len(),
{
    if t.len() == 0 {
        0
    } else {
        digits_value(t.drop_last()) * 10 + (t.last() - 48) as nat
    }
}

/// `t` without a leading `+`.
pub open spec fn unsigned_part(t: Seq<u8>) -> Seq<u8> {
    if t.len() > 0 && t[0] == 43 {
        t.skip(1)
    } else {
        t
    }
}

/// The unsigned 32-bit number that `t` writes, if it writes one.
pub open spec fn parse_count(t: Seq<u8>) -> Option<nat> {
    let d = unsigned_part(t);
    if d.len() > 0 && (forall|i: int| 0 <= i < d.len() ==> is_digit(#[trigger] d[i]))
        && digits_value(d) <= u32::MAX {
        Some(digits_value(d))
    } else {
        None
    }
}

/// The page count that the tool's output `s` reports, if it reports one.
pub open spec fn page_count(s: Seq<u8>) -> Option<nat> {
    match label_line_from(s, 0, true) {
        Some(a) => parse_count(last_word(s, a)),
        None => None,
    }
}

proof fn lemma_prefix_value_le(t: Seq<u8>, k: int)
    requires
        0 <= k <= t.len(),
        forall|i: int| 0 <= i < t.len() ==> is_digit(#[trigger] t[i]),
    ensures
        digits_value(t.take(k)) <= digits_value(t),
    decreases t.len(),
{
    if k == t.len() {
        assert(t.take(k) =~= t);
    } else {
        let u = t.drop_last();
        assert(u.take(k) =~= t.take(k));
        assert forall|i: int| 0 <= i < u.len() implies is_digit(#[trigger] u[i]) by {
            assert(u[i] == t[i]);
        }
        lemma_prefix_value_le(u, k);
    }
}

fn label_at_exec(s: &Vec<u8>, i: usize) -> (r: bool)
    ensures
        r == label_at(s@, i as int),
{
    if i >= s.len() || s.len() - i < 6 {
        return false;
    }
    let r = s[i] == 80 && s[i + 1] == 97 && s[i + 2] == 103 && s[i + 3] == 101 && s[i + 4]
        == 115 && s[i + 5] == 58;
    if r {
        assert(s@.subrange(i as int, i + 6) =~= pages_label());
    } else {
        assert(s@.subrange(i as int, i + 6) != pages_label()) by {
            if s@.subrange(i as int, i + 6) == pages_label() {
                assert(s@.subrange(i as int, i + 6)[0] == s@[i as int]);
                assert(s@.subrange(i as int, i + 6)[1] == s@[i + 1]);
                assert(s@.subrange(i as int, i + 6)[2] == s@[i + 2]);
                assert(s@.subrange(i as int, i + 6)[3] == s@[i + 3]);
                assert(s@.subrange(i as int, i + 6)[4] == s@[i + 4]);
                assert(s@.subrange(i as int, i + 6)[5] == s@[i + 5]);
            }
        }
    }
    r
}

fn find_label_line(s: &Vec<u8>) -> (r: Option<usize>)
    ensures
        r matches Some(a) ==> a < s.len() && label_line_from(s@, 0, true) == Some(a as int),
        r is None ==> label_line_from(s@, 0, true) is None,
{
    let mut i: usize = 0;
    let mut at_start = true;
    while i < s.len()
        invariant
            i <= s.len(),
            label_line_from(s@, 0, true) == label_line_from(s@, i as int, at_start),
        decreases s.len() - i,
    {
        if at_start && label_at_exec(s, i) {
            return Some(i);
        }
        at_start = s[i] == 10;
        i = i + 1;
    }
    None
}

fn blank(b: u8) -> (r: bool)
    ensures
        r == is_blank(b),
{
    b == 32 || b == 9 || b == 10 || b == 11 || b == 12 || b == 13
}

/// The bounds of the last word of the line that starts at `a`.
fn last_word_bounds(s: &Vec<u8>, a: usize) -> (r: (usize, usize))
    requires
        a <= s.len(),
    ensures
        r.0 <= r.1 <= s.len(),
        s@.subrange(r.0 as int, r.1 as int) == last_word(s@, a as int),
{
    let mut e: usize = a;
    while e < s.len() && s[e] != 10
        invariant
            a <= e <= s.len(),
            line_end(s@, a as int) == line_end(s@, e as int),
        decreases s.len() - e,
    {
        e = e + 1;
    }
    let ghost line = e;
    while e > a && blank(s[e - 1])
        invariant
            a <= e <= line <= s.len(),
            trim_end(s@, a as int, line as int) == trim_end(s@, a as int, e as int),
        decreases e - a,
    {
        e = e - 1;
    }
    let mut w: usize = e;
    while w > a && !blank(s[w - 1])
        invariant
            a <= w <= e <= s.len(),
            word_start(s@, a as int, e as int) == word_start(s@, a as int, w as int),
        decreases w - a,
    {
        w = w - 1;
    }
    (w, e)
}

/// The number that `s[from..to]` writes, if it writes an unsigned 32-bit one.
fn parse_count_exec(s: &Vec<u8>, from: usize, to: usize) -> (r: Option<u32>)
    requires
        from <= to <= s.len(),
    ensures
        r matches Some(n) ==> parse_count(s@.subrange(from as int, to as int)) == Some(n as nat),
        r is None ==> parse_count(s@.subrange(from as int, to as int)) is None,
{
    let ghost t = s@.subrange(from as int, to as int);
    let mut k: usize = from;
    if k < to && s[k] == 43 {
        k = k + 1;
    }
    let start = k;
    let ghost d = s@.subrange(start as int, to as int);
    assert(unsigned_part(t) =~= d);
    if start >= to {
        return None;
    }
    let mut v: u64 = 0;
    while k < to
        invariant
            from <= start <= k <= to <= s.len(),
            d == s@.subrange(start as int, to as int),
            t == s@.subrange(from as int, to as int),
            unsigned_part(t) == d,
            d.len() > 0,
            v == digits_value(d.take(k - start)),
            v <= u32::MAX,
            forall|i: int| 0 <= i < k - start ==> is_digit(#[trigger] d[i]),
        decreases to - k,
    {
        let b = s[k];
        if b < 48 || b > 57 {
            assert(d[k - start] == b);
            return None;
        }
        let ghost before = d.take(k - start);
        v = v * 10 + (b - 48) as u64;
        k = k + 1;
        assert(d.take(k - start).drop_last() =~= before);
        if v > u32::MAX as u64 {
            proof {
                if forall|i: int| 0 <= i < d.len() ==> is_digit(#[trigger] d[i]) {
                    lemma_prefix_value_le(d, k - start);
                }
            }
            return None;
        }
    }
    assert(d.take(k - start) =~= d);
    Some(v as u32)
}

/// The page count that the tool's output reports, or `None` where no line
/// begins with `Pages:` or that line's last word is no unsigned 32-bit number.
pub fn page_count_of(output: &Vec<u8>) -> (r: Option<u32>)
    ensures
        r matches Some(n) ==> page_count(output@) == Some(n as nat),
        r is None ==> page_count(output@) is None,
{
    match find_label_line(output) {
        None => None,
        Some(a) => {
            let (w, e) = last_word_bounds(output, a);
            parse_count_exec(output, w, e)
        },
    }
}

} // verus!
