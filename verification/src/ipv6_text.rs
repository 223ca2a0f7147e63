//! The text of an IPv6 address (RFC 5952): groups in lower-case hex without
//! leading zeros, separated by colons; the first longest run of two or more
//! zero groups written as `::`; an IPv4-mapped address written as
//! `::ffff:a.b.c.d`.
use vstd::prelude::*;

use crate::text::{decimal, push_char, push_decimal};

verus! {

pub open spec fn hex_char(d: nat) -> char {
    seq!['0', '1', '2', '3', '4', '5', '6', '7', '8', '9', 'a', 'b', 'c', 'd', 'e', 'f'][d as int]
}

/// The lower-case hexadecimal digits of `n`, without leading zeros.
pub open spec fn hex(n: nat) -> Seq<char>
    decreases n,
{
    if n < 16 {
        seq![hex_char(n)]
    } else {
        hex(n / 16).push(hex_char(n % 16))
    }
}

/// The groups of `g` in hex, separated by colons.
pub open spec fn groups_text(g: Seq<u16>) -> Seq<char>
    decreases g.len(),
{
    if g.len() == 0 {
        Seq::empty()
    } else if g.len() == 1 {
        hex(g[0] as nat)
    } else {
        hex(g[0] as nat) + seq![':'] + groups_text(g.skip(1))
    }
}

/// The number of zero groups from position `s` on, up to the first
/// non-zero group.
pub open spec fn zero_run(g: Seq<u16>, s: int) -> nat
    decreases g.len() - s,
{
    if s < 0 || s >= g.len() || g[s] != 0 {
        0
    } else {
        1 + zero_run(g, s + 1)
    }
}

/// `s` starts the first longest run of zero groups.
pub open spec fn is_best_run(g: Seq<u16>, s: int) -> bool {
    &&& 0 <= s < g.len()
    &&& forall|t: int|
        0 <= t < g.len() ==> #[trigger] zero_run(g, t) < zero_run(g, s) || (zero_run(g, t)
            == zero_run(g, s) && s <= t)
}

/// `g` is an IPv4-mapped address (`::ffff:a.b.c.d`).
pub open spec fn is_ipv4_mapped(g: Seq<u16>) -> bool {
    &&& g.len() == 8
    &&& forall|i: int| 0 <= i < 5 ==> #[trigger] g[i] == 0
    &&& g[5] == 0xffff
}

/// The dotted-decimal text of the last two groups of an IPv4-mapped
/// address.
pub open spec fn mapped_text(g: Seq<u16>) -> Seq<char> {
    decimal((g[6] / 256) as nat) + seq!['.'] + decimal((g[6] % 256) as nat) + seq!['.'] + decimal(
        (g[7] / 256) as nat,
    ) + seq!['.'] + decimal((g[7] % 256) as nat)
}

/// The text of an IPv6 address, as `std::net::Ipv6Addr` displays it.
pub open spec fn ipv6_text(g: Seq<u16>) -> Seq<char> {
    if is_ipv4_mapped(g) {
        seq![':', ':', 'f', 'f', 'f', 'f', ':'] + mapped_text(g)
    } else if exists|s: int| is_best_run(g, s) && zero_run(g, s) > 1 {
        let s = choose|s: int| is_best_run(g, s) && zero_run(g, s) > 1;
        groups_text(g.take(s)) + seq![':', ':'] + groups_text(g.skip(s + zero_run(g, s)))
    } else {
        groups_text(g)
    }
}

/// Appends the hex digits of `n` to `s`.
fn push_hex(s: &mut String, n: u64)
    ensures
        final(s)@ == old(s)@ + hex(n as nat),
    decreases n,
{
    if n >= 16 {
        push_hex(s, n / 16);
    }
    let digits: [char; 16] = [
        '0', '1', '2', '3', '4', '5', '6', '7', '8', '9', 'a', 'b', 'c', 'd', 'e', 'f',
    ];
    assert(digits@ =~= seq![
        '0', '1', '2', '3', '4', '5', '6', '7', '8', '9', 'a', 'b', 'c', 'd', 'e', 'f',
    ]);
    let d = (n % 16) as usize;
    push_char(s, digits[d]);
    assert(s@ =~= old(s)@ + hex(n as nat));
}

/// The colon-separated text of a sequence with one more group at its end.
proof fn lemma_groups_push(a: Seq<u16>, x: u16)
    ensures
        groups_text(a.push(x)) == if a.len() == 0 {
            hex(x as nat)
        } else {
            groups_text(a) + seq![':'] + hex(x as nat)
        },
    decreases a.len(),
{
    if a.len() == 1 {
        assert(a.push(x).skip(1) =~= seq![x]);
        assert(groups_text(seq![x]) == hex(x as nat));
    } else if a.len() > 1 {
        assert(a.push(x).skip(1) =~= a.skip(1).push(x));
        lemma_groups_push(a.skip(1), x);
        assert(groups_text(a.push(x)) =~= groups_text(a) + seq![':'] + hex(x as nat));
    }
}

/// Appends the text of `g[from..to]` to `s`.
fn push_groups(s: &mut String, g: [u16; 8], from: usize, to: usize)
    requires
        from <= to <= 8,
    ensures
        final(s)@ == old(s)@ + groups_text(g@.subrange(from as int, to as int)),
{
    let mut i = from;
    assert(g@.subrange(from as int, from as int) =~= Seq::<u16>::empty());
    while i < to
        invariant
            from <= i <= to <= 8,
            s@ == old(s)@ + groups_text(g@.subrange(from as int, i as int)),
        decreases to - i,
    {
        proof {
            assert(g@.subrange(from as int, i + 1) =~= g@.subrange(from as int, i as int).push(
                g@[i as int],
            ));
            lemma_groups_push(g@.subrange(from as int, i as int), g@[i as int]);
        }
        if i > from {
            push_char(s, ':');
        }
        push_hex(s, g[i] as u64);
        i = i + 1;
    }
}

/// The length of the run of zero groups that starts at `s`.
fn zero_run_at(g: [u16; 8], s: usize) -> (r: usize)
    requires
        s < 8,
    ensures
        r == zero_run(g@, s as int),
        r <= 8,
{
    let mut k = s;
    while k < 8 && g[k] == 0
        invariant
            s <= k <= 8,
            zero_run(g@, s as int) == (k - s) + zero_run(g@, k as int),
        decreases 8 - k,
    {
        k = k + 1;
    }
    k - s
}

proof fn lemma_best_run_unique(g: Seq<u16>, a: int, b: int)
    requires
        is_best_run(g, a),
        is_best_run(g, b),
    ensures
        a == b,
{
    assert(zero_run(g, b) < zero_run(g, a) || (zero_run(g, b) == zero_run(g, a) && a <= b));
    assert(zero_run(g, a) < zero_run(g, b) || (zero_run(g, a) == zero_run(g, b) && b <= a));
}

/// The text of an IPv6 address given by its eight groups.
pub fn ipv6_to_string(g: [u16; 8]) -> (r: String)
    ensures
        r@ == ipv6_text(g@),
{
    let mut s = String::new();
    if g[0] == 0 && g[1] == 0 && g[2] == 0 && g[3] == 0 && g[4] == 0 && g[5] == 0xffff {
        assert(is_ipv4_mapped(g@));
        push_char(&mut s, ':');
        push_char(&mut s, ':');
        push_char(&mut s, 'f');
        push_char(&mut s, 'f');
        push_char(&mut s, 'f');
        push_char(&mut s, 'f');
        push_char(&mut s, ':');
        push_decimal(&mut s, (g[6] / 256) as u64);
        push_char(&mut s, '.');
        push_decimal(&mut s, (g[6] % 256) as u64);
        push_char(&mut s, '.');
        push_decimal(&mut s, (g[7] / 256) as u64);
        push_char(&mut s, '.');
        push_decimal(&mut s, (g[7] % 256) as u64);
        assert(s@ =~= ipv6_text(g@));
        return s;
    }
    assert(!is_ipv4_mapped(g@)) by {
        if is_ipv4_mapped(g@) {
            assert(g@[0] == 0 && g@[1] == 0 && g@[2] == 0 && g@[3] == 0 && g@[4] == 0);
        }
    }
    let mut best: usize = 0;
    let mut best_len = zero_run_at(g, 0);
    let mut t: usize = 1;
    while t < 8
        invariant
            1 <= t <= 8,
            best < t,
            best_len == zero_run(g@, best as int),
            best_len <= 8,
            forall|u: int|
                0 <= u < t ==> #[trigger] zero_run(g@, u) < best_len || (zero_run(g@, u)
                    == best_len && best <= u),
        decreases 8 - t,
    {
        let l = zero_run_at(g, t);
        if l > best_len {
            best = t;
            best_len = l;
        }
        t = t + 1;
    }
    assert(is_best_run(g@, best as int));
    if best_len > 1 {
        proof {
            assert forall|u: int| is_best_run(g@, u) && zero_run(g@, u) > 1 implies u
                == best by {
                lemma_best_run_unique(g@, u, best as int);
            }
        }
        let end = if best + best_len <= 8 { best + best_len } else { 8 };
        proof {
            lemma_zero_run_bound(g@, best as int);
        }
        push_groups(&mut s, g, 0, best);
        push_char(&mut s, ':');
        push_char(&mut s, ':');
        push_groups(&mut s, g, end, 8);
        proof {
            assert(g@.subrange(0, best as int) =~= g@.take(best as int));
            assert(g@.subrange(end as int, 8) =~= g@.skip(best + zero_run(g@, best as int)));
            assert(s@ =~= ipv6_text(g@));
        }
        s
    } else {
        proof {
            assert forall|u: int| !(is_best_run(g@, u) && zero_run(g@, u) > 1) by {
                if is_best_run(g@, u) {
                    lemma_best_run_unique(g@, u, best as int);
                }
            }
        }
        push_groups(&mut s, g, 0, 8);
        assert(g@.subrange(0, 8) =~= g@);
        assert(s@ =~= ipv6_text(g@));
        s
    }
}

proof fn lemma_zero_run_bound(g: Seq<u16>, s: int)
    requires
        0 <= s <= g.len(),
    ensures
        s + zero_run(g, s) <= g.len(),
    decreases g.len() - s,
{
    if s < g.len() && g[s] == 0 {
        lemma_zero_run_bound(g, s + 1);
    }
}

} // verus!
