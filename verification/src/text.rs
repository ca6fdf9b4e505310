//! Character-level text scanning: whitespace tokens, separators and decimal numbers.
//!
//! Every specification is stated over `Seq<char>`. The scanners that run work on a
//! vector of characters and a half-open index range `[lo, hi)` into it, so that no text
//! is copied while it is being taken apart.

use vstd::prelude::*;

verus! {

/// Whether `c` has the Unicode property `White_Space`.
pub open spec fn is_space(c: char) -> bool {
    let u = c as u32;
    ||| 0x09 <= u <= 0x0D
    ||| u == 0x20
    ||| u == 0x85
    ||| u == 0xA0
    ||| u == 0x1680
    ||| 0x2000 <= u <= 0x200A
    ||| u == 0x2028
    ||| u == 0x2029
    ||| u == 0x202F
    ||| u == 0x205F
    ||| u == 0x3000
}

/// Whether `c` is one of the ASCII digits `0` to `9`.
pub open spec fn is_digit(c: char) -> bool {
    0x30 <= c as u32 <= 0x39
}

/// The number a digit stands for; 0 for any other character.
pub open spec fn digit_value(c: char) -> nat {
    if is_digit(c) {
        (c as u32 - 0x30) as nat
    } else {
        0
    }
}

/// Whether every character of `s` is an ASCII digit.
pub open spec fn all_digits(s: Seq<char>) -> bool {
    forall|i: int| 0 <= i < s.len() ==> is_digit(#[trigger] s[i])
}

/// The number written by the digits of `s` in base ten, most significant digit first.
pub open spec fn decimal_value(s: Seq<char>) -> nat
    decreases s.len(),
{
    if s.len() == 0 {
        0
    } else {
        10 * decimal_value(s.drop_last()) + digit_value(s.last())
    }
}

/// `s` without one leading `+`, if it has one.
pub open spec fn unsigned_digits(s: Seq<char>) -> Seq<char> {
    if s.len() > 0 && s[0] == '+' {
        s.drop_first()
    } else {
        s
    }
}

/// The unsigned 64-bit number that `s` writes: an optional `+`, then one or more ASCII
/// digits and nothing else, with a value that fits. `None` for every other text.
pub open spec fn parse_u64(s: Seq<char>) -> Option<u64> {
    let digits = unsigned_digits(s);
    if digits.len() > 0 && all_digits(digits) && decimal_value(digits) <= u64::MAX {
        Some(decimal_value(digits) as u64)
    } else {
        None
    }
}

/// The number of characters of `s` that stand before the first `sep`; the whole length
/// where `s` holds no `sep`.
pub open spec fn span_until(s: Seq<char>, sep: char) -> nat
    decreases s.len(),
{
    if s.len() == 0 || s[0] == sep {
        0
    } else {
        1 + span_until(s.drop_first(), sep)
    }
}

/// The number of characters of `s` that stand before its first white space; the whole
/// length where `s` holds none.
pub open spec fn word_len(s: Seq<char>) -> nat
    decreases s.len(),
{
    if s.len() == 0 || is_space(s[0]) {
        0
    } else {
        1 + word_len(s.drop_first())
    }
}

/// The maximal runs of characters of `s` that hold no white space, in order.
pub open spec fn tokens(s: Seq<char>) -> Seq<Seq<char>>
    decreases s.len(),
{
    if s.len() == 0 {
        Seq::empty()
    } else if is_space(s[0]) {
        tokens(s.drop_first())
    } else {
        let n = word_len(s) as int;
        if n >= s.len() {
            seq![s]
        } else {
            seq![s.take(n)] + tokens(s.skip(n))
        }
    }
}

/// The pieces of `s` between occurrences of `sep`, in order. A text without `sep` is
/// one piece; a `sep` at either end leaves an empty piece there.
pub open spec fn split(s: Seq<char>, sep: char) -> Seq<Seq<char>>
    decreases s.len(),
{
    let n = span_until(s, sep) as int;
    if n >= s.len() {
        seq![s]
    } else {
        seq![s.take(n)] + split(s.skip(n + 1), sep)
    }
}

/// `s` without its leading white space.
pub open spec fn trim_start(s: Seq<char>) -> Seq<char>
    decreases s.len(),
{
    if s.len() > 0 && is_space(s[0]) {
        trim_start(s.drop_first())
    } else {
        s
    }
}

/// `s` without its trailing white space.
pub open spec fn trim_end(s: Seq<char>) -> Seq<char>
    decreases s.len(),
{
    if s.len() > 0 && is_space(s.last()) {
        trim_end(s.drop_last())
    } else {
        s
    }
}

/// `s` without white space at either end.
pub open spec fn trim(s: Seq<char>) -> Seq<char> {
    trim_end(trim_start(s))
}

/// The texts that a list of index ranges cuts out of `chars`.
pub open spec fn pieces(chars: Seq<char>, ranges: Seq<(usize, usize)>) -> Seq<Seq<char>> {
    Seq::new(ranges.len(), |k: int| chars.subrange(ranges[k].0 as int, ranges[k].1 as int))
}

/// Whether every range of `ranges` lies inside `[lo, hi)`.
pub open spec fn ranges_within(ranges: Seq<(usize, usize)>, lo: int, hi: int) -> bool {
    forall|k: int|
        0 <= k < ranges.len() ==> lo <= (#[trigger] ranges[k]).0 <= ranges[k].1 <= hi
}

/// `span_until` is the index of the first `sep`, or the length.
proof fn lemma_span_until(s: Seq<char>, sep: char, n: int)
    requires
        0 <= n <= s.len(),
        forall|i: int| 0 <= i < n ==> s[i] != sep,
        n == s.len() || s[n] == sep,
    ensures
        span_until(s, sep) == n,
    decreases s.len(),
{
    if n > 0 {
        lemma_span_until(s.drop_first(), sep, n - 1);
    }
}

/// `word_len` is the index of the first white space, or the length.
proof fn lemma_word_len(s: Seq<char>, n: int)
    requires
        0 <= n <= s.len(),
        forall|i: int| 0 <= i < n ==> !is_space(s[i]),
        n == s.len() || is_space(s[n]),
    ensures
        word_len(s) == n,
    decreases s.len(),
{
    if n > 0 {
        lemma_word_len(s.drop_first(), n - 1);
    }
}

/// `trim_start` drops exactly the leading run of white space.
proof fn lemma_trim_start(s: Seq<char>, n: int)
    requires
        0 <= n <= s.len(),
        forall|i: int| 0 <= i < n ==> is_space(s[i]),
        n == s.len() || !is_space(s[n]),
    ensures
        trim_start(s) == s.skip(n),
    decreases n,
{
    if n == 0 {
        assert(s.skip(0) =~= s);
    } else {
        lemma_trim_start(s.drop_first(), n - 1);
        assert(s.drop_first().skip(n - 1) =~= s.skip(n));
    }
}

/// `trim_end` drops exactly the trailing run of white space.
proof fn lemma_trim_end(s: Seq<char>, n: int)
    requires
        0 <= n <= s.len(),
        forall|i: int| n <= i < s.len() ==> is_space(s[i]),
        n == 0 || !is_space(s[n - 1]),
    ensures
        trim_end(s) == s.take(n),
    decreases s.len() - n,
{
    if n == s.len() {
        assert(s.take(n) =~= s);
    } else {
        lemma_trim_end(s.drop_last(), n);
        assert(s.drop_last().take(n) =~= s.take(n));
    }
}

/// A text's value is at least the value of each of its prefixes.
proof fn lemma_decimal_value_prefix(s: Seq<char>, k: int)
    requires
        0 <= k <= s.len(),
    ensures
        decimal_value(s.take(k)) <= decimal_value(s),
    decreases s.len() - k,
{
    if k == s.len() {
        assert(s.take(k) =~= s);
    } else {
        lemma_decimal_value_prefix(s.drop_last(), k);
        assert(s.drop_last().take(k) =~= s.take(k));
    }
}

/// Tells whether `c` is white space.
pub(crate) fn is_whitespace(c: char) -> (b: bool)
    ensures
        b == is_space(c),
{
    let u: u32 = c as u32;
    (0x09 <= u && u <= 0x0D) || u == 0x20 || u == 0x85 || u == 0xA0 || u == 0x1680 || (0x2000
        <= u && u <= 0x200A) || u == 0x2028 || u == 0x2029 || u == 0x202F || u == 0x205F || u
        == 0x3000
}

/// Collects the characters of `s` so that they can be indexed in constant time.
pub(crate) fn chars_of(s: &str) -> (chars: Vec<char>)
    ensures
        chars@ == s@,
{
    broadcast use vstd::string::group_string_axioms;

    let mut chars: Vec<char> = Vec::new();
    for c in it: s.chars()
        invariant
            it.seq() == s@,
            chars@ == s@.take(it.index()),
    {
        chars.push(c);
    }
    chars
}

/// Finds the first `sep` in `chars[lo..hi]`; returns `hi` where there is none.
pub(crate) fn find_char(chars: &Vec<char>, lo: usize, hi: usize, sep: char) -> (end: usize)
    requires
        lo <= hi <= chars.len(),
    ensures
        lo <= end <= hi,
        end - lo == span_until(chars@.subrange(lo as int, hi as int), sep),
{
    let ghost s = chars@.subrange(lo as int, hi as int);
    let mut end: usize = lo;
    while end < hi && chars[end] != sep
        invariant
            lo <= end <= hi <= chars.len(),
            s == chars@.subrange(lo as int, hi as int),
            forall|i: int| 0 <= i < end - lo ==> s[i] != sep,
        decreases hi - end,
    {
        end += 1;
    }
    proof {
        lemma_span_until(s, sep, end - lo);
    }
    end
}

/// Finds the first white space in `chars[lo..hi]`; returns `hi` where there is none.
pub(crate) fn find_space(chars: &Vec<char>, lo: usize, hi: usize) -> (end: usize)
    requires
        lo <= hi <= chars.len(),
    ensures
        lo <= end <= hi,
        end - lo == word_len(chars@.subrange(lo as int, hi as int)),
{
    let ghost s = chars@.subrange(lo as int, hi as int);
    let mut end: usize = lo;
    while end < hi && !is_whitespace(chars[end])
        invariant
            lo <= end <= hi <= chars.len(),
            s == chars@.subrange(lo as int, hi as int),
            forall|i: int| 0 <= i < end - lo ==> !is_space(s[i]),
        decreases hi - end,
    {
        end += 1;
    }
    proof {
        lemma_word_len(s, end - lo);
    }
    end
}

/// Splits `chars[lo..hi]` into its white-space separated tokens, each given as the index
/// range it occupies in `chars`.
pub(crate) fn tokenize(chars: &Vec<char>, lo: usize, hi: usize) -> (ranges: Vec<(usize, usize)>)
    requires
        lo <= hi <= chars.len(),
    ensures
        pieces(chars@, ranges@) == tokens(chars@.subrange(lo as int, hi as int)),
        ranges_within(ranges@, lo as int, hi as int),
{
    let ghost whole = chars@.subrange(lo as int, hi as int);
    let mut ranges: Vec<(usize, usize)> = Vec::new();
    let mut at: usize = lo;
    while at < hi
        invariant
            lo <= at <= hi <= chars.len(),
            whole == chars@.subrange(lo as int, hi as int),
            ranges_within(ranges@, lo as int, hi as int),
            tokens(whole) == pieces(chars@, ranges@) + tokens(
                chars@.subrange(at as int, hi as int),
            ),
        decreases hi - at,
    {
        let ghost rest = chars@.subrange(at as int, hi as int);
        if is_whitespace(chars[at]) {
            proof {
                assert(rest.drop_first() =~= chars@.subrange(at + 1, hi as int));
            }
            at += 1;
        } else {
            let end = find_space(chars, at, hi);
            proof {
                let n = end - at;
                let extended = ranges@.push((at, end));
                assert(rest.take(n) =~= chars@.subrange(at as int, end as int));
                assert(pieces(chars@, extended) =~= pieces(chars@, ranges@) + seq![
                    rest.take(n),
                ]);
                if end < hi {
                    assert(rest.skip(n) =~= chars@.subrange(end as int, hi as int));
                } else {
                    assert(rest.take(n) =~= rest);
                    assert(chars@.subrange(end as int, hi as int) =~= Seq::<char>::empty());
                    assert(tokens(chars@.subrange(end as int, hi as int)) =~= Seq::<
                        Seq<char>,
                    >::empty());
                }
                assert(tokens(rest) =~= seq![rest.take(n)] + tokens(
                    chars@.subrange(end as int, hi as int),
                ));
            }
            ranges.push((at, end));
            at = end;
        }
    }
    proof {
        assert(chars@.subrange(at as int, hi as int) =~= Seq::<char>::empty());
        assert(pieces(chars@, ranges@) + Seq::<Seq<char>>::empty() =~= pieces(chars@, ranges@));
    }
    ranges
}

/// Splits `chars[lo..hi]` at every `sep`, giving each piece as the index range it
/// occupies in `chars`.
pub(crate) fn split_at_char(chars: &Vec<char>, lo: usize, hi: usize, sep: char) -> (ranges: Vec<
    (usize, usize),
>)
    requires
        lo <= hi <= chars.len(),
    ensures
        pieces(chars@, ranges@) == split(chars@.subrange(lo as int, hi as int), sep),
        ranges_within(ranges@, lo as int, hi as int),
{
    let ghost whole = chars@.subrange(lo as int, hi as int);
    let mut ranges: Vec<(usize, usize)> = Vec::new();
    let mut at: usize = lo;
    loop
        invariant_except_break
            lo <= at <= hi <= chars.len(),
            whole == chars@.subrange(lo as int, hi as int),
            ranges_within(ranges@, lo as int, hi as int),
            split(whole, sep) == pieces(chars@, ranges@) + split(
                chars@.subrange(at as int, hi as int),
                sep,
            ),
        ensures
            pieces(chars@, ranges@) == split(whole, sep),
            ranges_within(ranges@, lo as int, hi as int),
        decreases hi - at,
    {
        let ghost rest = chars@.subrange(at as int, hi as int);
        let ghost before = ranges@;
        let end = find_char(chars, at, hi, sep);
        ranges.push((at, end));
        proof {
            let n = end - at;
            assert(rest.take(n) =~= chars@.subrange(at as int, end as int));
            assert(pieces(chars@, ranges@) =~= pieces(chars@, before) + seq![rest.take(n)]);
        }
        if end >= hi {
            proof {
                assert(rest.take(end - at) =~= rest);
            }
            break ;
        }
        proof {
            assert(rest.skip(end - at + 1) =~= chars@.subrange(end + 1, hi as int));
        }
        at = end + 1;
    }
    ranges
}

/// Narrows `[lo, hi)` to the part of `chars[lo..hi]` that is left when the white space
/// at both ends is dropped.
pub(crate) fn trim_range(chars: &Vec<char>, lo: usize, hi: usize) -> (range: (usize, usize))
    requires
        lo <= hi <= chars.len(),
    ensures
        lo <= range.0 <= range.1 <= hi,
        chars@.subrange(range.0 as int, range.1 as int) == trim(
            chars@.subrange(lo as int, hi as int),
        ),
{
    let ghost s = chars@.subrange(lo as int, hi as int);
    let mut from: usize = lo;
    while from < hi && is_whitespace(chars[from])
        invariant
            lo <= from <= hi <= chars.len(),
            s == chars@.subrange(lo as int, hi as int),
            forall|i: int| 0 <= i < from - lo ==> is_space(s[i]),
        decreases hi - from,
    {
        from += 1;
    }
    let ghost t = chars@.subrange(from as int, hi as int);
    proof {
        lemma_trim_start(s, from - lo);
        assert(s.skip(from - lo) =~= t);
    }
    let mut to: usize = hi;
    while from < to && is_whitespace(chars[to - 1])
        invariant
            from <= to <= hi <= chars.len(),
            t == chars@.subrange(from as int, hi as int),
            forall|i: int| to - from <= i < t.len() ==> is_space(t[i]),
        decreases to - from,
    {
        to -= 1;
    }
    proof {
        lemma_trim_end(t, to - from);
        assert(t.take(to - from) =~= chars@.subrange(from as int, to as int));
    }
    (from, to)
}

/// Reads `chars[lo..hi]` as an unsigned decimal number.
pub(crate) fn parse_decimal(chars: &Vec<char>, lo: usize, hi: usize) -> (value: Option<u64>)
    requires
        lo <= hi <= chars.len(),
    ensures
        value == parse_u64(chars@.subrange(lo as int, hi as int)),
{
    let ghost s = chars@.subrange(lo as int, hi as int);
    let start: usize = if lo < hi && chars[lo] == '+' {
        lo + 1
    } else {
        lo
    };
    let ghost digits = chars@.subrange(start as int, hi as int);
    proof {
        assert(unsigned_digits(s) =~= digits);
    }
    if start >= hi {
        return None;
    }
    let mut value: u64 = 0;
    let mut at: usize = start;
    while at < hi
        invariant
            start <= at <= hi <= chars.len(),
            digits == chars@.subrange(start as int, hi as int),
            digits == unsigned_digits(chars@.subrange(lo as int, hi as int)),
            forall|i: int| 0 <= i < at - start ==> is_digit(#[trigger] digits[i]),
            value == decimal_value(digits.take(at - start)),
        decreases hi - at,
    {
        let u: u32 = chars[at] as u32;
        if u < 0x30 || u > 0x39 {
            proof {
                assert(!is_digit(digits[at - start]));
            }
            return None;
        }
        let digit: u64 = (u - 0x30) as u64;
        proof {
            let longer = digits.take(at - start + 1);
            assert(longer.drop_last() =~= digits.take(at - start));
            assert(longer.last() == digits[at - start]);
            assert(decimal_value(longer) == 10 * value + digit);
            lemma_decimal_value_prefix(digits, at - start + 1);
        }
        if value > (u64::MAX - digit) / 10 {
            return None;
        }
        value = value * 10 + digit;
        at += 1;
    }
    proof {
        assert(digits.take(at - start) =~= digits);
    }
    Some(value)
}

/// Copies `text[lo..hi]`, counted in characters, into a string of its own.
pub(crate) fn substring(text: &str, lo: usize, hi: usize) -> (piece: String)
    requires
        lo <= hi <= text@.len(),
    ensures
        piece@ == text@.subrange(lo as int, hi as int),
{
    text.substring_char(lo, hi).to_owned()
}

} // verus!
