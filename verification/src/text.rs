//! Character-level primitives on script text: whitespace, trimming, splitting
//! at a space, comparing, and reading a decimal number.

use vstd::prelude::*;
use vstd::string::*;
use vstd::utf8::*;

verus! {

/// The characters that Unicode gives the property `White_Space`.
pub open spec fn is_whitespace(c: char) -> bool {
    let u = c as u32;
    ||| 0x09 <= u <= 0x0D
    ||| u == 0x20
    ||| u == 0x85
    ||| u == 0xA0
    ||| u == 0x1680
    ||| 0x2000 <= u <= 0x200A
    ||| u == 0x2028
    ||| u == 0x2029
    ||| u == 0x202F
    ||| u == 0x205F
    ||| u == 0x3000
}

/// `s` without its leading whitespace.
pub open spec fn trim_start_of(s: Seq<char>) -> Seq<char>
    decreases s.len(),
{
    if s.len() > 0 && is_whitespace(s[0]) {
        trim_start_of(s.skip(1))
    } else {
        s
    }
}

/// `s` without its trailing whitespace.
pub open spec fn trim_end_of(s: Seq<char>) -> Seq<char>
    decreases s.len(),
{
    if s.len() > 0 && is_whitespace(s.last()) {
        trim_end_of(s.drop_last())
    } else {
        s
    }
}

/// `s` without its leading and trailing whitespace.
pub open spec fn trim_of(s: Seq<char>) -> Seq<char> {
    trim_end_of(trim_start_of(s))
}

/// Leading whitespace ends at `a`: everything before `a` is whitespace and
/// the character at `a`, if there is one, is not.
pub proof fn lemma_trim_start_at(s: Seq<char>, a: int)
    requires
        0 <= a <= s.len(),
        forall|j: int| 0 <= j < a ==> is_whitespace(#[trigger] s[j]),
        a < s.len() ==> !is_whitespace(s[a]),
    ensures
        trim_start_of(s) == s.skip(a),
    decreases a,
{
    if a > 0 {
        lemma_trim_start_at(s.skip(1), a - 1);
    }
}

/// Trailing whitespace starts at `b`: everything from `b` on is whitespace
/// and the character before `b`, if there is one, is not.
pub proof fn lemma_trim_end_at(s: Seq<char>, b: int)
    requires
        0 <= b <= s.len(),
        forall|j: int| b <= j < s.len() ==> is_whitespace(#[trigger] s[j]),
        0 < b ==> !is_whitespace(s[b - 1]),
    ensures
        trim_end_of(s) == s.take(b),
    decreases s.len() - b,
{
    if b < s.len() {
        lemma_trim_end_at(s.drop_last(), b);
    }
}

/// Where the leading whitespace of `s` ends.
pub proof fn lemma_trim_start_of(s: Seq<char>) -> (a: int)
    ensures
        0 <= a <= s.len(),
        trim_start_of(s) == s.skip(a),
        forall|j: int| 0 <= j < a ==> is_whitespace(#[trigger] s[j]),
        a < s.len() ==> !is_whitespace(s[a]),
    decreases s.len(),
{
    if s.len() > 0 && is_whitespace(s[0]) {
        let t = s.skip(1);
        let a = lemma_trim_start_of(t);
        assert forall|j: int| 0 <= j < a + 1 implies is_whitespace(#[trigger] s[j]) by {
            if j > 0 {
                assert(s[j] == t[j - 1]);
            }
        }
        a + 1
    } else {
        0
    }
}

/// Where the trailing whitespace of `s` begins.
pub proof fn lemma_trim_end_of(s: Seq<char>) -> (b: int)
    ensures
        0 <= b <= s.len(),
        trim_end_of(s) == s.take(b),
        forall|j: int| b <= j < s.len() ==> is_whitespace(#[trigger] s[j]),
        0 < b ==> !is_whitespace(s[b - 1]),
    decreases s.len(),
{
    if s.len() > 0 && is_whitespace(s.last()) {
        let t = s.drop_last();
        let b = lemma_trim_end_of(t);
        assert forall|j: int| b <= j < s.len() implies is_whitespace(#[trigger] s[j]) by {
            if j < s.len() - 1 {
                assert(s[j] == t[j]);
            }
        }
        b
    } else {
        s.len() as int
    }
}

/// Trimming cuts as little as it can: what it leaves is the part of `s`
/// between two places, all that it cuts is whitespace, and what it leaves
/// neither begins nor ends with whitespace.
pub proof fn lemma_trim_of(s: Seq<char>) -> (ends: (int, int))
    ensures
        0 <= ends.0 <= ends.1 <= s.len(),
        trim_of(s) == s.subrange(ends.0, ends.1),
        forall|j: int| 0 <= j < ends.0 ==> is_whitespace(#[trigger] s[j]),
        forall|j: int| ends.1 <= j < s.len() ==> is_whitespace(#[trigger] s[j]),
        ends.0 < ends.1 ==> !is_whitespace(s[ends.0]) && !is_whitespace(s[ends.1 - 1]),
{
    let a = lemma_trim_start_of(s);
    let t = s.skip(a);
    let b = lemma_trim_end_of(t);
    assert forall|j: int| a + b <= j < s.len() implies is_whitespace(#[trigger] s[j]) by {
        assert(s[j] == t[j - a]);
    }
    (a, a + b)
}

/// Trimming what is trimmed changes nothing.
pub proof fn lemma_trim_of_trimmed(s: Seq<char>)
    ensures
        trim_of(trim_of(s)) == trim_of(s),
{
    lemma_trim_of(s);
}

/// Whether `c` is whitespace.
pub fn is_space_char(c: char) -> (b: bool)
    ensures
        b == is_whitespace(c),
{
    let u: u32 = c as u32;
    (0x09 <= u && u <= 0x0D) || u == 0x20 || u == 0x85 || u == 0xA0 || u == 0x1680 || (0x2000 <= u
        && u <= 0x200A) || u == 0x2028 || u == 0x2029 || u == 0x202F || u == 0x205F || u == 0x3000
}

/// The part of `s` between its leading and its trailing whitespace.
pub fn trim<'a>(s: &'a str) -> (r: &'a str)
    ensures
        r@ == trim_of(s@),
{
    let n = s.unicode_len();
    let mut start: usize = 0;
    let mut end: usize = 0;
    let mut i: usize = 0;
    for c in it: s.chars()
        invariant
            it.seq() == s@,
            i == it.index(),
            n == s@.len(),
            start <= end <= i,
            forall|j: int| 0 <= j < start ==> is_whitespace(#[trigger] s@[j]),
            forall|j: int| end <= j < i ==> is_whitespace(#[trigger] s@[j]),
            start < end ==> !is_whitespace(s@[start as int]) && !is_whitespace(s@[end - 1]),
            start == end ==> end == i,
    {
        if !is_space_char(c) {
            if start == end {
                start = i;
            }
            end = i + 1;
        } else if start == end {
            start = i + 1;
            end = i + 1;
        }
        i = i + 1;
    }
    proof {
        lemma_trim_start_at(s@, start as int);
        lemma_trim_end_at(s@.skip(start as int), end - start);
    }
    s.substring_char(start, end)
}

/// `s` up to its trailing whitespace.
pub fn trim_end<'a>(s: &'a str) -> (r: &'a str)
    ensures
        r@ == trim_end_of(s@),
{
    let n = s.unicode_len();
    let mut end: usize = 0;
    let mut i: usize = 0;
    for c in it: s.chars()
        invariant
            it.seq() == s@,
            i == it.index(),
            n == s@.len(),
            end <= i,
            forall|j: int| end <= j < i ==> is_whitespace(#[trigger] s@[j]),
            0 < end ==> !is_whitespace(s@[end - 1]),
    {
        if !is_space_char(c) {
            end = i + 1;
        }
        i = i + 1;
    }
    proof {
        lemma_trim_end_at(s@, end as int);
    }
    s.substring_char(0, end)
}

/// Whether two strings hold the same characters.
pub fn str_eq(a: &str, b: &str) -> (r: bool)
    ensures
        r == (a@ == b@),
{
    broadcast use encode_utf8_decode_utf8;

    let x = a.as_bytes();
    let y = b.as_bytes();
    if x.len() != y.len() {
        return false;
    }
    let mut i: usize = 0;
    while i < x.len()
        invariant
            x@ == encode_utf8(a@),
            y@ == encode_utf8(b@),
            x@.len() == y@.len(),
            i <= x@.len(),
            forall|j: int| 0 <= j < i ==> x@[j] == y@[j],
        decreases x@.len() - i,
    {
        if x[i] != y[i] {
            return false;
        }
        i = i + 1;
    }
    assert(x@ =~= y@);
    assert(decode_utf8(encode_utf8(a@)) == a@ && decode_utf8(encode_utf8(b@)) == b@);
    true
}

/// Where the first space of `s` stands, or the length of `s` if it has none.
pub open spec fn first_space(s: Seq<char>) -> int
    decreases s.len(),
{
    if s.len() == 0 || s[0] == ' ' {
        0
    } else {
        1 + first_space(s.skip(1))
    }
}

/// The first space is at `i`: no space stands before `i`, and one stands at
/// `i` unless `i` is the end.
pub proof fn lemma_first_space_at(s: Seq<char>, i: int)
    requires
        0 <= i <= s.len(),
        forall|j: int| 0 <= j < i ==> #[trigger] s[j] != ' ',
        i < s.len() ==> s[i] == ' ',
    ensures
        first_space(s) == i,
    decreases i,
{
    if i > 0 {
        lemma_first_space_at(s.skip(1), i - 1);
    }
}

/// What `first_space` returns is the place of the first space.
pub proof fn lemma_first_space(s: Seq<char>)
    ensures
        0 <= first_space(s) <= s.len(),
        forall|j: int| 0 <= j < first_space(s) ==> #[trigger] s[j] != ' ',
        first_space(s) < s.len() ==> s[first_space(s)] == ' ',
    decreases s.len(),
{
    if !(s.len() == 0 || s[0] == ' ') {
        let t = s.skip(1);
        lemma_first_space(t);
        assert forall|j: int| 0 <= j < first_space(s) implies #[trigger] s[j] != ' ' by {
            if j > 0 {
                assert(s[j] == t[j - 1]);
            }
        }
    }
}

/// The field that `s` begins with: what stands before its first space.
pub open spec fn head_of(s: Seq<char>) -> Seq<char> {
    s.take(first_space(s))
}

/// What follows the first space of `s`, if it has one.
pub open spec fn tail_of(s: Seq<char>) -> Option<Seq<char>> {
    if first_space(s) < s.len() {
        Some(s.skip(first_space(s) + 1))
    } else {
        None
    }
}

/// Splits `s` at its first space. The space itself belongs to neither part.
pub fn split_space<'a>(s: &'a str) -> (r: (&'a str, Option<&'a str>))
    ensures
        r.0@ == head_of(s@),
        match r.1 {
            Some(t) => tail_of(s@) == Some(t@),
            None => tail_of(s@) is None,
        },
{
    let n = s.unicode_len();
    let mut at: usize = 0;
    let mut i: usize = 0;
    for c in it: s.chars()
        invariant
            it.seq() == s@,
            i == it.index(),
            n == s@.len(),
            at <= i,
            forall|j: int| 0 <= j < at ==> #[trigger] s@[j] != ' ',
            at < i ==> s@[at as int] == ' ',
    {
        if at == i && c != ' ' {
            at = i + 1;
        }
        i = i + 1;
    }
    proof {
        lemma_first_space_at(s@, at as int);
    }
    let head = s.substring_char(0, at);
    if at < n {
        (head, Some(s.substring_char(at + 1, n)))
    } else {
        (head, None)
    }
}

/// Whether `c` is one of the ten decimal digits.
pub open spec fn is_digit(c: char) -> bool {
    0x30 <= c as u32 <= 0x39
}

/// The number that a string of decimal digits writes.
pub open spec fn decimal_value(s: Seq<char>) -> nat
    decreases s.len(),
{
    if s.len() == 0 {
        0
    } else {
        (10 * decimal_value(s.drop_last()) + (s.last() as u32 - 0x30)) as nat
    }
}

/// The digits of a number: `s` itself, or `s` without a leading `+`.
pub open spec fn digits_of(s: Seq<char>) -> Seq<char> {
    if s.len() > 0 && s[0] == '+' {
        s.skip(1)
    } else {
        s
    }
}

/// The number of seconds that `s` writes: an optional `+`, then one or more
/// decimal digits whose value fits in 64 bits. Anything else is no number.
pub open spec fn seconds_of(s: Seq<char>) -> Option<u64> {
    let d = digits_of(s);
    if d.len() > 0 && (forall|i: int| 0 <= i < d.len() ==> is_digit(#[trigger] d[i]))
        && decimal_value(d) <= u64::MAX {
        Some(decimal_value(d) as u64)
    } else {
        None
    }
}

/// A string of digits is worth at least as much as any of its prefixes.
pub proof fn lemma_decimal_value_grows(s: Seq<char>, k: int)
    requires
        0 <= k <= s.len(),
        forall|i: int| 0 <= i < s.len() ==> is_digit(#[trigger] s[i]),
    ensures
        decimal_value(s.take(k)) <= decimal_value(s),
    decreases s.len() - k,
{
    if k == s.len() {
        assert(s.take(k) =~= s);
    } else {
        let t = s.drop_last();
        lemma_decimal_value_grows(t, k);
        assert(t.take(k) =~= s.take(k));
    }
}

/// Reads a number of seconds.
pub fn parse_seconds(s: &str) -> (r: Option<u64>)
    ensures
        r == seconds_of(s@),
{
    let n = s.unicode_len();
    let mut acc: u64 = 0;
    let mut ok: bool = true;
    let mut signed: bool = false;
    let mut i: usize = 0;
    for c in it: s.chars()
        invariant
            it.seq() == s@,
            i == it.index(),
            n == s@.len(),
            signed ==> i > 0 && s@[0] == '+',
            !signed && i > 0 ==> s@[0] != '+',
            ok ==> (forall|j: int| (if signed { 1int } else { 0int }) <= j < i ==> is_digit(#[trigger] s@[j])),
            ok ==> acc == decimal_value(s@.subrange(if signed { 1int } else { 0int }, i as int)),
            !ok ==> seconds_of(s@) is None,
    {
        let ghost lo: int = if signed { 1int } else { 0int };
        if i == 0 && c == '+' {
            signed = true;
        } else if ok {
            let u: u32 = c as u32;
            if 0x30 <= u && u <= 0x39 {
                let d: u64 = (u - 0x30) as u64;
                let ghost next = s@.subrange(lo, i + 1);
                assert(next.drop_last() =~= s@.subrange(lo, i as int));
                let grown = match acc.checked_mul(10) {
                    Some(m) => m.checked_add(d),
                    None => None,
                };
                match grown {
                    Some(v) => {
                        acc = v;
                    },
                    None => {
                        ok = false;
                        proof {
                            let ds = digits_of(s@);
                            if forall|j: int| 0 <= j < ds.len() ==> is_digit(#[trigger] ds[j]) {
                                lemma_decimal_value_grows(ds, i + 1 - lo);
                                assert(ds.take(i + 1 - lo) =~= next);
                            }
                        }
                    },
                }
            } else {
                ok = false;
                assert(!is_digit(digits_of(s@)[i - lo]));
            }
        }
        i = i + 1;
    }
    let first: usize = if signed { 1 } else { 0 };
    assert(digits_of(s@) =~= s@.subrange(first as int, n as int));
    if ok && i > first {
        Some(acc)
    } else {
        None
    }
}

} // verus!
