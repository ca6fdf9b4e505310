//! Reading the aggregate CPU line of the kernel's statistics text.

use crate::stat::{CpuUsageInfo, ParseError, Stat};
use crate::text::{
    chars_of, find_char, parse_decimal, parse_u64, pieces, ranges_within, span_until, tokenize,
    tokens,
};
use vstd::prelude::*;

verus! {

/// The label of the line that sums up all CPUs.
pub open spec fn aggregate_label() -> Seq<char> {
    seq!['c', 'p', 'u']
}

/// Whether the first white-space separated token of `line` is exactly the label.
pub open spec fn is_aggregate_line(line: Seq<char>) -> bool {
    tokens(line).len() > 0 && tokens(line)[0] == aggregate_label()
}

/// The first line of `s` that is an aggregate line, lines being what stands between
/// line feeds.
pub open spec fn aggregate_line(s: Seq<char>) -> Option<Seq<char>>
    decreases s.len(),
{
    let n = span_until(s, '\n') as int;
    if is_aggregate_line(s.take(n)) {
        Some(s.take(n))
    } else if n >= s.len() {
        None
    } else {
        aggregate_line(s.skip(n + 1))
    }
}

/// The number of counters that follow the label.
pub const COUNTER_COUNT: usize = 10;

/// The counters that the tokens of an aggregate line hold: the ten tokens after the
/// label, in the order user, nice, system, idle, iowait, irq, softirq, steal, guest,
/// guest_nice. Tokens after the tenth counter are not looked at.
pub open spec fn counters_of_tokens(t: Seq<Seq<char>>) -> Result<CpuUsageInfo, ParseError> {
    if t.len() < 1 + COUNTER_COUNT {
        Err(ParseError::MissingField)
    } else if exists|k: int| 1 <= k <= COUNTER_COUNT && parse_u64(#[trigger] t[k]) is None {
        Err(ParseError::InvalidField)
    } else {
        Ok(
            CpuUsageInfo {
                user: parse_u64(t[1]).unwrap(),
                nice: parse_u64(t[2]).unwrap(),
                system: parse_u64(t[3]).unwrap(),
                idle: parse_u64(t[4]).unwrap(),
                io_wait: parse_u64(t[5]).unwrap(),
                irq: parse_u64(t[6]).unwrap(),
                soft_irq: parse_u64(t[7]).unwrap(),
                steal_stolen: parse_u64(t[8]).unwrap(),
                guest: parse_u64(t[9]).unwrap(),
                guest_nice: parse_u64(t[10]).unwrap(),
            },
        )
    }
}

/// What the statistics text `s` says of the CPU counters.
pub open spec fn parse_proc_stat(s: Seq<char>) -> Result<CpuUsageInfo, ParseError> {
    match aggregate_line(s) {
        None => Err(ParseError::MissingCpuLine),
        Some(line) => counters_of_tokens(tokens(line)),
    }
}

/// Tells whether `chars[range]` is the label of the aggregate line.
fn is_label(chars: &Vec<char>, range: (usize, usize)) -> (b: bool)
    requires
        range.0 <= range.1 <= chars.len(),
    ensures
        b == (chars@.subrange(range.0 as int, range.1 as int) == aggregate_label()),
{
    let (lo, hi) = range;
    let ghost token = chars@.subrange(lo as int, hi as int);
    if hi - lo != 3 {
        assert(token.len() != aggregate_label().len());
        return false;
    }
    let b = chars[lo] == 'c' && chars[lo + 1] == 'p' && chars[lo + 2] == 'u';
    proof {
        assert(token[0] == chars@[lo as int]);
        assert(token[1] == chars@[lo + 1]);
        assert(token[2] == chars@[lo + 2]);
        if b {
            assert(token =~= aggregate_label());
        }
    }
    b
}

/// Reads the ten counters from the tokens of an aggregate line.
fn counters_from_fields(chars: &Vec<char>, fields: &Vec<(usize, usize)>) -> (r: Result<
    CpuUsageInfo,
    ParseError,
>)
    requires
        ranges_within(fields@, 0, chars.len() as int),
    ensures
        r == counters_of_tokens(pieces(chars@, fields@)),
{
    let ghost t = pieces(chars@, fields@);
    if fields.len() < 1 + COUNTER_COUNT {
        return Err(ParseError::MissingField);
    }
    let mut values: Vec<u64> = Vec::new();
    let mut k: usize = 1;
    while k <= COUNTER_COUNT
        invariant
            1 <= k <= 1 + COUNTER_COUNT <= fields.len(),
            ranges_within(fields@, 0, chars.len() as int),
            t == pieces(chars@, fields@),
            values.len() == k - 1,
            forall|j: int| 1 <= j < k ==> parse_u64(#[trigger] t[j]) == Some(values[j - 1]),
        decreases 1 + COUNTER_COUNT - k,
    {
        let (lo, hi) = fields[k];
        match parse_decimal(chars, lo, hi) {
            None => {
                proof {
                    assert(parse_u64(t[k as int]) is None);
                }
                return Err(ParseError::InvalidField);
            },
            Some(value) => {
                values.push(value);
            },
        }
        k += 1;
    }
    proof {
        assert forall|j: int| 1 <= j <= COUNTER_COUNT implies parse_u64(#[trigger] t[j]) is Some by {}
    }
    Ok(
        CpuUsageInfo {
            user: values[0],
            nice: values[1],
            system: values[2],
            idle: values[3],
            io_wait: values[4],
            irq: values[5],
            soft_irq: values[6],
            steal_stolen: values[7],
            guest: values[8],
            guest_nice: values[9],
        },
    )
}

impl Stat {
    /// Reads the CPU counters from the text of the kernel's statistics: the first line
    /// whose first token is `cpu` gives them; the per-CPU lines `cpu0`, `cpu1`, ... do
    /// not count.
    pub fn read_proc_stat(contents: &str) -> (r: Result<CpuUsageInfo, ParseError>)
        ensures
            r == parse_proc_stat(contents@),
    {
        let chars = chars_of(contents);
        let len = chars.len();
        let mut start: usize = 0;
        assert(chars@.subrange(0, len as int) =~= chars@);
        loop
            invariant
                start <= len == chars.len(),
                chars@ == contents@,
                aggregate_line(chars@) == aggregate_line(chars@.subrange(start as int, len as int)),
            decreases len - start,
        {
            let ghost rest = chars@.subrange(start as int, len as int);
            let end = find_char(&chars, start, len, '\n');
            let fields = tokenize(&chars, start, end);
            proof {
                assert(rest.take(end - start) =~= chars@.subrange(start as int, end as int));
                if fields.len() > 0 {
                    assert(pieces(chars@, fields@)[0] == chars@.subrange(
                        fields[0].0 as int,
                        fields[0].1 as int,
                    ));
                }
            }
            if fields.len() > 0 && is_label(&chars, fields[0]) {
                return counters_from_fields(&chars, &fields);
            }
            if end >= len {
                return Err(ParseError::MissingCpuLine);
            }
            proof {
                assert(rest.skip(end - start + 1) =~= chars@.subrange(end + 1, len as int));
            }
            start = end + 1;
        }
    }
}

} // verus!
