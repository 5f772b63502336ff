//! Character-level text helpers shared by the matchers, the filters and the
//! normalizers.  Every helper is specified over the `Seq<char>` view of the
//! strings it reads.
use vstd::prelude::*;

verus! {

broadcast use vstd::string::group_string_axioms;

/// `p` is a prefix of `s`.
pub open spec fn has_prefix(s: Seq<char>, p: Seq<char>) -> bool {
    p.len() <= s.len() && s.take(p.len() as int) == p
}

/// `p` is a suffix of `s`.
pub open spec fn has_suffix(s: Seq<char>, p: Seq<char>) -> bool {
    p.len() <= s.len() && s.skip(s.len() - p.len()) == p
}

/// `p` occurs somewhere inside `s` as a contiguous run.
pub open spec fn has_infix(s: Seq<char>, p: Seq<char>) -> bool {
    exists|i: int| 0 <= i && i + p.len() <= s.len() && #[trigger] s.subrange(i, i + p.len()) == p
}

/// The position of the first NUL byte of `b`, or its length when there is none.
pub open spec fn nul_position(b: Seq<u8>) -> nat
    decreases b.len(),
{
    if b.len() == 0 {
        0
    } else if b[0] == 0 {
        0
    } else {
        1 + nul_position(b.skip(1))
    }
}

/// What `String::from_utf8_lossy` gives back for `bytes`.
pub uninterp spec fn lossy_utf8_text(bytes: Seq<u8>) -> Seq<char>;

/// The text of a NUL-terminated byte buffer: the bytes before the first NUL,
/// decoded lossily.
pub open spec fn fixed_text(bytes: Seq<u8>) -> Seq<char> {
    lossy_utf8_text(bytes.take(nul_position(bytes) as int))
}

/// Calls `String::from_utf8_lossy`.  The contract names its result
/// `lossy_utf8_text` of the bytes, and states what the std documentation
/// promises: valid UTF-8 input is decoded unchanged.
#[verifier::external_body]
fn utf8_lossy(bytes: &[u8]) -> (s: String)
    ensures
        s@ == lossy_utf8_text(bytes@),
        vstd::utf8::valid_utf8(bytes@) ==> s@ == vstd::utf8::decode_utf8(bytes@),
{
    String::from_utf8_lossy(bytes).into_owned()
}

/// Calls `String::push`: appends one character.
#[verifier::external_body]
pub(crate) fn push_char(s: &mut String, c: char)
    ensures
        final(s)@ == old(s)@.push(c),
{
    s.push(c);
}

/// Makes an owned copy of a string slice.
pub fn owned(s: &str) -> (r: String)
    ensures
        r@ == s@,
{
    s.to_string()
}

/// The characters of `s`, in order.
pub fn chars_of(s: &str) -> (v: Vec<char>)
    ensures
        v@ == s@,
{
    let mut v: Vec<char> = Vec::new();
    for c in it: s.chars()
        invariant
            v@ == it.seq().take(it.index() as int),
    {
        v.push(c);
    }
    v
}

/// Whether the character run `p` starts at position `at` of `s`.
fn run_at(s: &Vec<char>, p: &Vec<char>, at: usize) -> (r: bool)
    requires
        at + p@.len() <= s@.len(),
    ensures
        r == (s@.subrange(at as int, at + p@.len()) == p@),
{
    let mut i: usize = 0;
    while i < p.len()
        invariant
            at + p@.len() <= s.len(),
            i <= p@.len(),
            forall|j: int| 0 <= j < i ==> s@[at + j] == p@[j],
        decreases p@.len() - i,
    {
        if s[at + i] != p[i] {
            assert(s@.subrange(at as int, at + p@.len())[i as int] != p@[i as int]);
            return false;
        }
        i = i + 1;
    }
    assert(s@.subrange(at as int, at + p@.len()) =~= p@);
    true
}

/// `a` and `b` hold the same characters.
pub fn text_eq(a: &str, b: &str) -> (r: bool)
    ensures
        r == (a@ == b@),
{
    let av = chars_of(a);
    let bv = chars_of(b);
    if av.len() != bv.len() {
        return false;
    }
    let r = run_at(&av, &bv, 0);
    proof {
        assert(av@.subrange(0, bv@.len() as int) =~= av@);
    }
    r
}

/// `s` starts with `p`.
pub fn starts_with(s: &str, p: &str) -> (r: bool)
    ensures
        r == has_prefix(s@, p@),
{
    let sv = chars_of(s);
    let pv = chars_of(p);
    if pv.len() > sv.len() {
        return false;
    }
    let r = run_at(&sv, &pv, 0);
    proof {
        assert(sv@.take(pv@.len() as int) =~= sv@.subrange(0, pv@.len() as int));
    }
    r
}

/// The characters `s[from..to]` start with `p`.
pub fn has_prefix_chars(s: &Vec<char>, from: usize, to: usize, p: &str) -> (r: bool)
    requires
        from <= to <= s@.len(),
    ensures
        r == has_prefix(s@.subrange(from as int, to as int), p@),
{
    let pv = chars_of(p);
    if pv.len() > to - from {
        return false;
    }
    let r = run_at(s, &pv, from);
    proof {
        assert(s@.subrange(from as int, to as int).take(pv@.len() as int) =~= s@.subrange(
            from as int,
            from + pv@.len(),
        ));
    }
    r
}

/// The characters `s[from..to]` end with `p`.
pub fn has_suffix_chars(s: &Vec<char>, from: usize, to: usize, p: &str) -> (r: bool)
    requires
        from <= to <= s@.len(),
    ensures
        r == has_suffix(s@.subrange(from as int, to as int), p@),
{
    let pv = chars_of(p);
    if pv.len() > to - from {
        return false;
    }
    let at = to - pv.len();
    let r = run_at(s, &pv, at);
    proof {
        let w = s@.subrange(from as int, to as int);
        assert(w.skip(w.len() - pv@.len()) =~= s@.subrange(at as int, at + pv@.len()));
    }
    r
}

/// `p` occurs inside `s`.
pub fn contains(s: &str, p: &str) -> (r: bool)
    ensures
        r == has_infix(s@, p@),
{
    let sv = chars_of(s);
    let pv = chars_of(p);
    if pv.len() > sv.len() {
        proof {
            assert forall|i: int| 0 <= i && i + pv@.len() <= sv@.len() implies #[trigger] sv@.subrange(
                i,
                i + pv@.len(),
            ) != pv@ by {}
        }
        return false;
    }
    let last = sv.len() - pv.len();
    let mut at: usize = 0;
    loop
        invariant
            last == sv@.len() - pv@.len(),
            pv@.len() <= sv@.len(),
            sv@ == s@,
            pv@ == p@,
            at <= last,
            forall|i: int| 0 <= i < at ==> #[trigger] sv@.subrange(i, i + pv@.len()) != pv@,
        ensures
            forall|i: int| 0 <= i <= last ==> #[trigger] sv@.subrange(i, i + pv@.len()) != pv@,
        decreases last - at,
    {
        if run_at(&sv, &pv, at) {
            return true;
        }
        if at == last {
            break;
        }
        at = at + 1;
    }
    proof {
        assert forall|i: int| 0 <= i && i + pv@.len() <= sv@.len() implies #[trigger] sv@.subrange(
            i,
            i + pv@.len(),
        ) != pv@ by {
            assert(i <= last);
        }
    }
    false
}

/// `p` has the shape `*.ext`: a glob on the extension.
pub open spec fn ext_glob(p: Seq<char>) -> bool {
    p.len() >= 2 && p[0] == '*' && p[1] == '.'
}

/// Whether `p` has the shape `*.ext`.
pub fn is_ext_glob(p: &str) -> (r: bool)
    ensures
        r == ext_glob(p@),
{
    let pv = chars_of(p);
    pv.len() >= 2 && pv[0] == '*' && pv[1] == '.'
}

/// `s` ends with `p` with its first `k` characters left out.
pub fn ends_with_tail(s: &str, p: &str, k: usize) -> (r: bool)
    requires
        k <= p@.len(),
    ensures
        r == has_suffix(s@, p@.skip(k as int)),
{
    let sv = chars_of(s);
    let pv = chars_of(p);
    let tail_len = pv.len() - k;
    if tail_len > sv.len() {
        return false;
    }
    let at = sv.len() - tail_len;
    let mut i: usize = 0;
    while i < tail_len
        invariant
            sv@ == s@,
            pv@ == p@,
            tail_len == pv@.len() - k,
            k <= pv@.len(),
            at + tail_len == sv.len(),
            k + tail_len == pv.len(),
            i <= tail_len,
            forall|j: int| 0 <= j < i ==> #[trigger] sv@.skip(at as int)[j] == pv@.skip(k as int)[j],
        decreases tail_len - i,
    {
        if sv[at + i] != pv[k + i] {
            assert(sv@.skip(at as int)[i as int] != pv@.skip(k as int)[i as int]);
            return false;
        }
        i = i + 1;
    }
    assert(sv@.skip(at as int) =~= pv@.skip(k as int));
    true
}

/// `p` ends with the character `c`.
pub fn ends_with_char(p: &str, c: char) -> (r: bool)
    ensures
        r == (p@.len() > 0 && p@.last() == c),
{
    let pv = chars_of(p);
    pv.len() > 0 && pv[pv.len() - 1] == c
}

/// `s` starts with `p` followed by the character `c`.
pub fn starts_with_then(s: &str, p: &str, c: char) -> (r: bool)
    ensures
        r == has_prefix(s@, p@.push(c)),
{
    let sv = chars_of(s);
    let pv = chars_of(p);
    if pv.len() >= sv.len() {
        return false;
    }
    let head = run_at(&sv, &pv, 0);
    proof {
        assert(sv@.take(pv@.len() as int) =~= sv@.subrange(0, pv@.len() as int));
        assert(pv@.push(c).take(pv@.len() as int) =~= pv@);
        assert(sv@.take(pv@.len() as int + 1).take(pv@.len() as int) =~= sv@.take(
            pv@.len() as int,
        ));
    }
    if !head {
        return false;
    }
    if sv[pv.len()] != c {
        assert(sv@.take(pv@.len() as int + 1)[pv@.len() as int] != pv@.push(c)[pv@.len() as int]);
        return false;
    }
    assert(sv@.take(pv@.len() as int + 1) =~= pv@.push(c));
    true
}

/// Index of the first NUL byte among the first `max_len` bytes, or `max_len`.
fn nul_index(bytes: &[u8], max_len: usize) -> (n: usize)
    requires
        max_len <= bytes@.len(),
    ensures
        n == nul_position(bytes@.take(max_len as int)),
        n <= max_len,
{
    let mut i: usize = 0;
    assert(bytes@.take(max_len as int).skip(0) =~= bytes@.take(max_len as int));
    while i < max_len
        invariant
            max_len <= bytes@.len(),
            i <= max_len,
            forall|j: int| 0 <= j < i ==> bytes@[j] != 0,
            nul_position(bytes@.take(max_len as int)) == i + nul_position(
                bytes@.take(max_len as int).skip(i as int),
            ),
        decreases max_len - i,
    {
        let ghost rest = bytes@.take(max_len as int).skip(i as int);
        if bytes[i] == 0 {
            assert(rest[0] == 0);
            return i;
        }
        assert(rest.skip(1) =~= bytes@.take(max_len as int).skip(i + 1));
        i = i + 1;
    }
    assert(bytes@.take(max_len as int).skip(i as int).len() == 0);
    i
}

/// The text of the NUL-terminated buffer held in the first `max_len` bytes.
pub fn fixed_string(bytes: &[u8], max_len: usize) -> (s: String)
    requires
        max_len <= bytes@.len(),
    ensures
        s@ == fixed_text(bytes@.take(max_len as int)),
        ({
            let b = bytes@.take(max_len as int);
            let prefix = b.take(nul_position(b) as int);
            vstd::utf8::valid_utf8(prefix) ==> s@ == vstd::utf8::decode_utf8(prefix)
        }),
{
    let n = nul_index(bytes, max_len);
    let prefix = &bytes[0..n];
    proof {
        assert(prefix@ =~= bytes@.take(max_len as int).take(n as int));
    }
    utf8_lossy(prefix)
}

/// The decimal digits of `n`.
pub open spec fn decimal_text(n: nat) -> Seq<char>
    decreases n,
{
    if n < 10 {
        seq![digit_char(n)]
    } else {
        decimal_text(n / 10).push(digit_char(n % 10))
    }
}

pub open spec fn digit_char(d: nat) -> char {
    ((d + 48) as u32) as char
}

fn push_digit(s: &mut String, d: u8)
    requires
        d < 10,
    ensures
        final(s)@ == old(s)@.push(digit_char(d as nat)),
{
    let c: char = match d {
        0 => '0',
        1 => '1',
        2 => '2',
        3 => '3',
        4 => '4',
        5 => '5',
        6 => '6',
        7 => '7',
        8 => '8',
        _ => '9',
    };
    push_char(s, c);
}

/// Appends the decimal digits of a byte.
pub fn push_decimal_u8(s: &mut String, n: u8)
    ensures
        final(s)@ == old(s)@ + decimal_text(n as nat),
{
    if n < 10 {
        push_digit(s, n);
        assert(decimal_text(n as nat) =~= seq![digit_char(n as nat)]);
    } else if n < 100 {
        push_digit(s, n / 10);
        push_digit(s, n % 10);
        assert(decimal_text((n / 10) as nat) =~= seq![digit_char((n / 10) as nat)]);
        assert(decimal_text(n as nat) =~= seq![digit_char((n / 10) as nat), digit_char((n % 10) as nat)]);
    } else {
        push_digit(s, n / 100);
        push_digit(s, (n / 10) % 10);
        push_digit(s, n % 10);
        assert(decimal_text((n / 100) as nat) =~= seq![digit_char((n / 100) as nat)]);
        assert(((n / 10) as nat) / 10 == (n / 100) as nat);
        assert(decimal_text((n / 10) as nat) =~= seq![digit_char((n / 100) as nat), digit_char(((n / 10) % 10) as nat)]);
        assert(decimal_text(n as nat) =~= seq![digit_char((n / 100) as nat), digit_char(((n / 10) % 10) as nat), digit_char((n % 10) as nat)]);
    }
}

} // verus!
