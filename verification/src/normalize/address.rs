//! Text forms of socket families and addresses: dotted IPv4, and IPv6 in
//! the RFC 5952 form (lowercase hex groups, the first longest run of two or
//! more zero groups written `::`, IPv4-mapped addresses as `::ffff:a.b.c.d`).
use vstd::prelude::*;
use crate::text::{owned, push_char, push_decimal_u8};
use crate::text;

verus! {

/// The name of a socket family by its wire value.
pub open spec fn family_name(family: u16) -> Seq<char> {
    if family == 2 {
        "ipv4"@
    } else if family == 10 {
        "ipv6"@
    } else {
        "unknown"@
    }
}

/// The name of a socket family.
pub fn network_family(family: u16) -> (r: String)
    ensures
        r@ == family_name(family),
{
    if family == 2 {
        owned("ipv4")
    } else if family == 10 {
        owned("ipv6")
    } else {
        owned("unknown")
    }
}

/// `a.b.c.d` in decimal.
pub open spec fn dotted_quad(a: u8, b: u8, c: u8, d: u8) -> Seq<char> {
    text::decimal_text(a as nat) + seq!['.'] + text::decimal_text(b as nat) + seq!['.']
        + text::decimal_text(c as nat) + seq!['.'] + text::decimal_text(d as nat)
}

/// An IPv4 address held as a number, most significant byte first.
pub open spec fn ipv4_text(addr: u32) -> Seq<char> {
    dotted_quad(
        (addr / 0x100_0000) as u8,
        ((addr / 0x1_0000) % 256) as u8,
        ((addr / 0x100) % 256) as u8,
        (addr % 256) as u8,
    )
}

fn push_dotted_quad(s: &mut String, a: u8, b: u8, c: u8, d: u8)
    ensures
        final(s)@ == old(s)@ + dotted_quad(a, b, c, d),
{
    push_decimal_u8(s, a);
    push_char(s, '.');
    push_decimal_u8(s, b);
    push_char(s, '.');
    push_decimal_u8(s, c);
    push_char(s, '.');
    push_decimal_u8(s, d);
    assert(final(s)@ =~= old(s)@ + dotted_quad(a, b, c, d));
}

/// Lowercase hexadecimal digit.
pub open spec fn hex_digit(d: nat) -> char {
    if d < 10 {
        ((d + 48) as u32) as char
    } else {
        ((d + 87) as u32) as char
    }
}

/// Lowercase hexadecimal without leading zeros.
pub open spec fn hex_text(n: nat) -> Seq<char>
    decreases n,
{
    if n < 16 {
        seq![hex_digit(n)]
    } else {
        hex_text(n / 16).push(hex_digit(n % 16))
    }
}

fn push_hex_digit(s: &mut String, d: u16)
    requires
        d < 16,
    ensures
        final(s)@ == old(s)@.push(hex_digit(d as nat)),
{
    let c: char = match d {
        0 => '0',
        1 => '1',
        2 => '2',
        3 => '3',
        4 => '4',
        5 => '5',
        6 => '6',
        7 => '7',
        8 => '8',
        9 => '9',
        10 => 'a',
        11 => 'b',
        12 => 'c',
        13 => 'd',
        14 => 'e',
        _ => 'f',
    };
    push_char(s, c);
}

fn push_hex(s: &mut String, n: u16)
    ensures
        final(s)@ == old(s)@ + hex_text(n as nat),
    decreases n,
{
    if n >= 16 {
        push_hex(s, n / 16);
    }
    push_hex_digit(s, n % 16);
    assert(final(s)@ =~= old(s)@ + hex_text(n as nat));
}

/// The eight 16-bit groups of an IPv6 address, most significant first.
pub open spec fn segments(b: Seq<u8>) -> Seq<u16> {
    Seq::new(8, |i: int| (b[2 * i] as int * 256 + b[2 * i + 1] as int) as u16)
}

/// Groups in hex, separated by colons.
pub open spec fn groups_text(g: Seq<u16>) -> Seq<char>
    decreases g.len(),
{
    if g.len() == 0 {
        Seq::empty()
    } else if g.len() == 1 {
        hex_text(g[0] as nat)
    } else {
        groups_text(g.drop_last()) + seq![':'] + hex_text(g.last() as nat)
    }
}

/// `len` zero groups start at `start`.
pub open spec fn zero_run(g: Seq<u16>, start: int, len: int) -> bool {
    &&& 0 <= start
    &&& 0 <= len
    &&& start + len <= g.len()
    &&& forall|k: int| start <= k < start + len ==> g[k] == 0
}

/// The longest run of zero groups, the first of them on a tie.
pub open spec fn longest_zero_run(g: Seq<u16>, start: int, len: int) -> bool {
    &&& zero_run(g, start, len)
    &&& forall|s2: int, l2: int| #[trigger] zero_run(g, s2, l2) ==> l2 <= len && (l2 == len ==> start <= s2)
}

/// An IPv4-mapped address: `::ffff:0:0/96`.
pub open spec fn ipv4_mapped(g: Seq<u16>) -> bool {
    g[0] == 0 && g[1] == 0 && g[2] == 0 && g[3] == 0 && g[4] == 0 && g[5] == 0xffff
}

/// The text of an IPv6 address given as its 16 bytes in network order.
pub open spec fn ipv6_text(b: Seq<u8>) -> Seq<char> {
    let g = segments(b);
    if ipv4_mapped(g) {
        "::ffff:"@ + dotted_quad(b[12], b[13], b[14], b[15])
    } else {
        let run = choose|run: (int, int)| longest_zero_run(g, run.0, run.1);
        if run.1 > 1 {
            groups_text(g.take(run.0)) + seq![':', ':'] + groups_text(g.skip(run.0 + run.1))
        } else {
            groups_text(g)
        }
    }
}

/// There is only one longest zero run.
pub proof fn lemma_longest_zero_run_unique(g: Seq<u16>, s1: int, l1: int, s2: int, l2: int)
    requires
        longest_zero_run(g, s1, l1),
        longest_zero_run(g, s2, l2),
    ensures
        s1 == s2,
        l1 == l2,
{
    assert(zero_run(g, s2, l2));
    assert(zero_run(g, s1, l1));
}

fn address_segments(b: &[u8; 16]) -> (g: Vec<u16>)
    ensures
        g@ == segments(b@),
{
    let mut g: Vec<u16> = Vec::new();
    let mut i: usize = 0;
    while i < 8
        invariant
            i <= 8,
            b@.len() == 16,
            g@.len() == i,
            forall|k: int| 0 <= k < i ==> g@[k] == segments(b@)[k],
        decreases 8 - i,
    {
        let hi: u16 = b[2 * i] as u16;
        let lo: u16 = b[2 * i + 1] as u16;
        let v: u16 = hi * 256 + lo;
        assert(v == (b@[2 * i as int] as int * 256 + b@[2 * i as int + 1] as int) as u16);
        g.push(v);
        i = i + 1;
    }
    assert(g@ =~= segments(b@));
    g
}

/// Finds the first longest run of zero groups, scanning left to right.
fn find_longest_zero_run(g: &Vec<u16>) -> (r: (usize, usize))
    requires
        g@.len() == 8,
    ensures
        longest_zero_run(g@, r.0 as int, r.1 as int),
{
    let mut best_start: usize = 0;
    let mut best_len: usize = 0;
    let mut cur_len: usize = 0;
    let mut i: usize = 0;
    while i < 8
        invariant
            i <= 8,
            g@.len() == 8,
            cur_len <= i,
            zero_run(g@, i - cur_len, cur_len as int),
            i - cur_len == 0 || g@[i - cur_len - 1] != 0,
            longest_zero_run(g@.take(i as int), best_start as int, best_len as int),
        decreases 8 - i,
    {
        let ghost prev = g@.take(i as int);
        let ghost next = g@.take(i + 1);
        if g[i] == 0 {
            cur_len = cur_len + 1;
        } else {
            cur_len = 0;
        }
        let ghost old_best = (best_start, best_len);
        if cur_len > best_len {
            best_start = i + 1 - cur_len;
            best_len = cur_len;
        }
        proof {
            assert(zero_run(g@, i + 1 - cur_len, cur_len as int));
            assert forall|s2: int, l2: int| #[trigger] zero_run(next, s2, l2) implies l2
                <= best_len && (l2 == best_len ==> best_start <= s2) by {
                if s2 + l2 <= i {
                    assert(zero_run(prev, s2, l2));
                } else if l2 > 0 {
                    assert(s2 + l2 == i + 1);
                    assert(next[i as int] == 0);
                    assert(g@[i as int] == 0);
                    if s2 < i + 1 - cur_len {
                        let z = i - cur_len;
                        assert(next[z] == 0);
                    }
                    assert(l2 <= cur_len);
                    if l2 == best_len && s2 < best_start {
                        assert(zero_run(prev, s2, l2 - 1));
                        assert(zero_run(prev, s2, l2)) by {
                            assert(s2 + l2 <= i);
                        }
                    }
                } else {
                    assert(zero_run(prev, 0, 0));
                }
            }
        }
        i = i + 1;
    }
    assert(g@.take(8) =~= g@);
    (best_start, best_len)
}

fn push_groups(s: &mut String, g: &Vec<u16>, from: usize, to: usize)
    requires
        from <= to <= g@.len(),
    ensures
        final(s)@ == old(s)@ + groups_text(g@.subrange(from as int, to as int)),
{
    let mut i: usize = from;
    while i < to
        invariant
            from <= i <= to <= g@.len(),
            s@ == old(s)@ + groups_text(g@.subrange(from as int, i as int)),
        decreases to - i,
    {
        let ghost before = s@;
        if i > from {
            push_char(s, ':');
        }
        push_hex(s, g[i]);
        let ghost part = g@.subrange(from as int, i + 1);
        assert(part.drop_last() =~= g@.subrange(from as int, i as int));
        assert(part.last() == g@[i as int]);
        if i == from {
            assert(groups_text(g@.subrange(from as int, i as int)) =~= Seq::<char>::empty());
            assert(s@ =~= old(s)@ + groups_text(part));
        } else {
            assert(s@ =~= old(s)@ + groups_text(part));
        }
        i = i + 1;
    }
}

/// The text of an address of the given family: dotted IPv4, RFC 5952
/// IPv6, empty for any other family.
pub open spec fn address_text(family: u16, ipv4_addr: u32, ipv6_addr: Seq<u8>) -> Seq<char> {
    if family == 2 {
        ipv4_text(ipv4_addr)
    } else if family == 10 {
        ipv6_text(ipv6_addr)
    } else {
        Seq::empty()
    }
}

/// The text of a socket address.
pub fn network_addr(family: u16, ipv4_addr: u32, ipv6_addr: &[u8; 16]) -> (r: String)
    ensures
        r@ == address_text(family, ipv4_addr, ipv6_addr@),
{
    let mut s = String::new();
    if family == 2 {
        push_dotted_quad(
            &mut s,
            (ipv4_addr / 0x100_0000) as u8,
            ((ipv4_addr / 0x1_0000) % 256) as u8,
            ((ipv4_addr / 0x100) % 256) as u8,
            (ipv4_addr % 256) as u8,
        );
        assert(s@ =~= ipv4_text(ipv4_addr));
    } else if family == 10 {
        let g = address_segments(ipv6_addr);
        if g[0] == 0 && g[1] == 0 && g[2] == 0 && g[3] == 0 && g[4] == 0 && g[5] == 0xffff {
            s = owned("::ffff:");
            push_dotted_quad(&mut s, ipv6_addr[12], ipv6_addr[13], ipv6_addr[14], ipv6_addr[15]);
        } else {
            let (start, len) = find_longest_zero_run(&g);
            proof {
                let run = choose|run: (int, int)| longest_zero_run(g@, run.0, run.1);
                assert(longest_zero_run(g@, start as int, len as int));
                lemma_longest_zero_run_unique(g@, run.0, run.1, start as int, len as int);
            }
            if len > 1 {
                push_groups(&mut s, &g, 0, start);
                push_char(&mut s, ':');
                push_char(&mut s, ':');
                push_groups(&mut s, &g, start + len, 8);
                assert(g@.subrange(0, start as int) =~= g@.take(start as int));
                assert(g@.subrange(start + len, 8) =~= g@.skip(start + len));
                assert(s@ =~= ipv6_text(ipv6_addr@));
            } else {
                push_groups(&mut s, &g, 0, 8);
                assert(g@.subrange(0, 8) =~= g@);
            }
        }
    }
    s
}

} // verus!
