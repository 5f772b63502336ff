//! The periodic health record, and the resident set size read from the
//! process status text.
use vstd::prelude::*;
use crate::text::{chars_of, has_prefix_chars, has_suffix_chars};
use crate::text;

verus! {

/// Counters and sizes reported by the periodic health event.
#[derive(Clone, Debug)]
pub struct HealthRecord {
    pub raw_events_read: u64,
    pub normalized_events_output: u64,
    pub alerts_output: u64,
    pub userspace_filtered: u64,
    pub userspace_rate_limited: u64,
    pub invalid_schema: u64,
    pub process_table_size: usize,
    pub pending_exec_source_size: usize,
    pub uptime_secs: u64,
    pub rss_kb: Option<u64>,
}

/// Unicode white space, as `char::is_whitespace` has it.
pub open spec fn is_white_space(c: char) -> bool {
    ||| '\t' <= c <= '\r'
    ||| c == ' '
    ||| c == '\u{85}'
    ||| c == '\u{a0}'
    ||| c == '\u{1680}'
    ||| '\u{2000}' <= c <= '\u{200a}'
    ||| c == '\u{2028}'
    ||| c == '\u{2029}'
    ||| c == '\u{202f}'
    ||| c == '\u{205f}'
    ||| c == '\u{3000}'
}

/// `s` without its leading white space.
pub open spec fn trim_start(s: Seq<char>) -> Seq<char>
    decreases s.len(),
{
    if s.len() > 0 && is_white_space(s[0]) {
        trim_start(s.skip(1))
    } else {
        s
    }
}

/// `s` without its trailing white space.
pub open spec fn trim_end(s: Seq<char>) -> Seq<char>
    decreases s.len(),
{
    if s.len() > 0 && is_white_space(s.last()) {
        trim_end(s.drop_last())
    } else {
        s
    }
}

/// `s` without leading and trailing white space.
pub open spec fn trim(s: Seq<char>) -> Seq<char> {
    trim_end(trim_start(s))
}

/// The number that decimal digits spell.
pub open spec fn digits_value(d: Seq<char>) -> nat
    decreases d.len(),
{
    if d.len() == 0 {
        0
    } else {
        digits_value(d.drop_last()) * 10 + (d.last() as nat - 48) as nat
    }
}

/// Every character is a decimal digit.
pub open spec fn all_digits(d: Seq<char>) -> bool {
    forall|i: int| 0 <= i < d.len() ==> '0' <= #[trigger] d[i] <= '9'
}

/// What `str::parse::<u64>` gives: an optional `+`, then one or more
/// decimal digits whose value fits.
pub open spec fn parse_u64(s: Seq<char>) -> Option<u64> {
    let d = if s.len() > 0 && s[0] == '+' { s.skip(1) } else { s };
    if d.len() > 0 && all_digits(d) && digits_value(d) <= u64::MAX {
        Some(digits_value(d) as u64)
    } else {
        None
    }
}

/// For a `VmRSS:` line whose value ends in `kB`, the parsed number of
/// kilobytes; `None` for any other line.
pub open spec fn rss_line(line: Seq<char>) -> Option<Option<u64>> {
    if text::has_prefix(line, "VmRSS:"@) {
        let rest = trim(line.skip(6));
        if text::has_suffix(rest, "kB"@) {
            Some(parse_u64(trim(rest.take(rest.len() - 2))))
        } else {
            None
        }
    } else {
        None
    }
}

/// Where the first line of `s` ends: at its first newline, or at the end.
pub open spec fn line_end(s: Seq<char>) -> int
    decreases s.len(),
{
    if s.len() == 0 || s[0] == '\n' {
        0
    } else {
        1 + line_end(s.skip(1))
    }
}

/// The value of the first `VmRSS:` line of a status text whose value ends
/// in `kB`; `None` when there is none.
pub open spec fn rss_kb_of(s: Seq<char>) -> Option<u64>
    decreases s.len(),
{
    if s.len() == 0 {
        None
    } else {
        let e = line_end(s);
        proof {
            lemma_line_end_bounds(s);
        }
        match rss_line(s.take(e)) {
            Some(v) => v,
            None => if e < s.len() { rss_kb_of(s.skip(e + 1)) } else { None },
        }
    }
}

/// Where the first line ends, and that no newline comes before it.
pub proof fn lemma_line_end_bounds(s: Seq<char>)
    ensures
        0 <= line_end(s) <= s.len(),
        line_end(s) < s.len() ==> s[line_end(s)] == '\n',
        forall|i: int| 0 <= i < line_end(s) ==> s[i] != '\n',
    decreases s.len(),
{
    if s.len() > 0 && s[0] != '\n' {
        lemma_line_end_bounds(s.skip(1));
        assert forall|i: int| 0 <= i < line_end(s) implies s[i] != '\n' by {
            if i > 0 {
                assert(s[i] == s.skip(1)[i - 1]);
            }
        }
    }
}

/// Whether a character is white space.
pub fn is_ws(c: char) -> (r: bool)
    ensures
        r == is_white_space(c),
{
    ('\t' <= c && c <= '\r') || c == ' ' || c == '\u{85}' || c == '\u{a0}' || c == '\u{1680}' || (
    '\u{2000}' <= c && c <= '\u{200a}') || c == '\u{2028}' || c == '\u{2029}' || c == '\u{202f}'
        || c == '\u{205f}' || c == '\u{3000}'
}

/// Bounds of `s[from..to]` once white space is trimmed from both ends.
fn trim_bounds(s: &Vec<char>, from: usize, to: usize) -> (r: (usize, usize))
    requires
        from <= to <= s@.len(),
    ensures
        from <= r.0 <= r.1 <= to,
        s@.subrange(r.0 as int, r.1 as int) == trim(s@.subrange(from as int, to as int)),
{
    let mut a = from;
    while a < to && is_ws(s[a])
        invariant
            from <= a <= to <= s@.len(),
            trim_start(s@.subrange(from as int, to as int)) == trim_start(
                s@.subrange(a as int, to as int),
            ),
        decreases to - a,
    {
        assert(s@.subrange(a as int, to as int).skip(1) =~= s@.subrange(a + 1, to as int));
        a = a + 1;
    }
    let mut b = to;
    while b > a && is_ws(s[b - 1])
        invariant
            from <= a <= b <= to <= s@.len(),
            trim_end(s@.subrange(a as int, to as int)) == trim_end(s@.subrange(a as int, b as int)),
        decreases b - a,
    {
        assert(s@.subrange(a as int, b as int).drop_last() =~= s@.subrange(a as int, b - 1));
        b = b - 1;
    }
    (a, b)
}

/// The value of `s[from..to]` by `str::parse::<u64>`.
fn parse_u64_range(s: &Vec<char>, from: usize, to: usize) -> (r: Option<u64>)
    requires
        from <= to <= s@.len(),
    ensures
        r == parse_u64(s@.subrange(from as int, to as int)),
{
    let ghost whole = s@.subrange(from as int, to as int);
    let mut start = from;
    if start < to && s[start] == '+' {
        start = start + 1;
    }
    let ghost d = s@.subrange(start as int, to as int);
    assert(d =~= (if whole.len() > 0 && whole[0] == '+' { whole.skip(1) } else { whole }));
    if start == to {
        return None;
    }
    let mut value: u64 = 0;
    let mut i = start;
    while i < to
        invariant
            from <= start <= i <= to <= s@.len(),
            start < to,
            d == s@.subrange(start as int, to as int),
            whole == s@.subrange(from as int, to as int),
            d == (if whole.len() > 0 && whole[0] == '+' { whole.skip(1) } else { whole }),
            all_digits(s@.subrange(start as int, i as int)),
            value == digits_value(s@.subrange(start as int, i as int)),
        decreases to - i,
    {
        let c = s[i];
        let ghost prefix = s@.subrange(start as int, i + 1);
        assert(prefix.drop_last() =~= s@.subrange(start as int, i as int));
        assert(prefix.last() == c);
        assert(d[i - start] == c);
        if !('0' <= c && c <= '9') {
            assert(!all_digits(d));
            return None;
        }
        let digit = (c as u32 - 48) as u64;
        assert(digit == (c as nat - 48) as nat);
        assert(digits_value(prefix) == value * 10 + digit);
        if value > 1844674407370955161 || (value == 1844674407370955161 && digit > 5) {
            proof {
                assert(d.take(i + 1 - start) =~= prefix);
                lemma_digits_value_grows(d, i + 1 - start);
                assert(digits_value(prefix) > u64::MAX);
            }
            return None;
        }
        assert(all_digits(prefix)) by {
            assert forall|j: int| 0 <= j < prefix.len() implies '0' <= #[trigger] prefix[j] <= '9' by {
                if j < prefix.len() - 1 {
                    assert(prefix[j] == s@.subrange(start as int, i as int)[j]);
                }
            }
        }
        value = value * 10 + digit;
        i = i + 1;
    }
    assert(s@.subrange(start as int, i as int) =~= d);
    Some(value)
}

/// Appending digits never makes the value smaller.
proof fn lemma_digits_value_grows(d: Seq<char>, k: int)
    requires
        0 <= k <= d.len(),
    ensures
        all_digits(d) ==> digits_value(d.take(k)) <= digits_value(d),
    decreases d.len() - k,
{
    if all_digits(d) {
        if k < d.len() {
            lemma_digits_value_grows(d, k + 1);
            let t = d.take(k + 1);
            assert(t.drop_last() =~= d.take(k));
            assert(t.last() == d[k]);
            assert('0' <= d[k] <= '9');
            assert(digits_value(t) == digits_value(d.take(k)) * 10 + (d[k] as nat - 48) as nat);
        } else {
            assert(d.take(k) =~= d);
        }
    }
}

/// The resident set size, in kilobytes, that a process status text
/// reports on its `VmRSS:` line.
pub fn parse_rss_kb(status: &str) -> (r: Option<u64>)
    ensures
        r == rss_kb_of(status@),
{
    let s = chars_of(status);
    let n = s.len();
    let mut pos: usize = 0;
    assert(s@.skip(0) =~= s@);
    while pos < n
        invariant
            pos <= n == s@.len(),
            s@ == status@,
            rss_kb_of(status@) == rss_kb_of(s@.skip(pos as int)),
        decreases n - pos,
    {
        proof {
            reveal_strlit("VmRSS:");
            reveal_strlit("kB");
        }
        let ghost rest = s@.skip(pos as int);
        let mut end = pos;
        while end < n && s[end] != '\n'
            invariant
                pos <= end <= n == s@.len(),
                forall|i: int| pos <= i < end ==> s@[i] != '\n',
            decreases n - end,
        {
            end = end + 1;
        }
        proof {
            lemma_line_end_bounds(rest);
            lemma_line_end_is(rest, (end - pos) as int);
        }
        let ghost line = rest.take(end - pos);
        assert(line =~= s@.subrange(pos as int, end as int));
        if has_prefix_chars(&s, pos, end, "VmRSS:") {
            let (a, b) = trim_bounds(&s, pos + 6, end);
            assert(line.skip(6) =~= s@.subrange(pos + 6, end as int));
            if has_suffix_chars(&s, a, b, "kB") {
                let (c, d) = trim_bounds(&s, a, b - 2);
                let ghost t = s@.subrange(a as int, b as int);
                assert(t.take(t.len() - 2) =~= s@.subrange(a as int, b - 2));
                return parse_u64_range(&s, c, d);
            }
        }
        if end == n {
            return None;
        }
        assert(rest.skip(end - pos + 1) =~= s@.skip(end + 1));
        pos = end + 1;
    }
    None
}

proof fn lemma_line_end_is(s: Seq<char>, e: int)
    requires
        0 <= e <= s.len(),
        e == s.len() || s[e] == '\n',
        forall|i: int| 0 <= i < e ==> s[i] != '\n',
    ensures
        line_end(s) == e,
    decreases e,
{
    if e > 0 {
        lemma_line_end_is(s.skip(1), e - 1);
    }
}

} // verus!
