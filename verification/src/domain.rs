//! The grammar of domain names that rules may be written for.
//!
//! A domain is accepted when its UTF-8 encoding is shorter than 253 bytes and
//! it is, ignoring case, either `localhost` or an optional `*.` followed by one
//! or more labels, each followed by a dot, and a final top-level label of
//! letters only. A label is 1 to 63 letters, digits and hyphens that starts and
//! ends with a letter or a digit; the top-level label is 2 to 63 letters.
//!
//! Matching ignores case with simple Unicode case folding, so besides the ASCII
//! letters in either case, `ſ` (U+017F, folding to `s`) and `K` (U+212A,
//! folding to `k`) count as letters.
use vstd::prelude::*;

use vstd::utf8::encode_utf8;

use crate::text::{chars_of, utf8_len_below};

verus! {

/// The longest accepted encoding, in bytes, is one less than this.
pub const MAX_DOMAIN_BYTES: usize = 253;

/// A letter under case-insensitive matching.
pub open spec fn is_letter(c: char) -> bool {
    ||| ('a' <= c && c <= 'z')
    ||| ('A' <= c && c <= 'Z')
    ||| c == '\u{17f}'
    ||| c == '\u{212a}'
}

pub open spec fn is_digit(c: char) -> bool {
    '0' <= c && c <= '9'
}

pub open spec fn is_alnum(c: char) -> bool {
    is_letter(c) || is_digit(c)
}

pub open spec fn is_label_char(c: char) -> bool {
    is_alnum(c) || c == '-'
}

/// A label: 1 to 63 letters, digits and hyphens, starting and ending with a
/// letter or digit.
pub open spec fn valid_label(l: Seq<char>) -> bool {
    &&& 1 <= l.len() <= 63
    &&& is_alnum(l[0])
    &&& is_alnum(l[l.len() - 1])
    &&& forall|i: int| 0 <= i < l.len() ==> is_label_char(#[trigger] l[i])
}

/// A top-level label: 2 to 63 letters.
pub open spec fn valid_tld(l: Seq<char>) -> bool {
    &&& 2 <= l.len() <= 63
    &&& forall|i: int| 0 <= i < l.len() ==> is_letter(#[trigger] l[i])
}

/// The pieces of `s` between dots, in order; there is always at least one.
pub open spec fn split_dots(s: Seq<char>) -> Seq<Seq<char>>
    decreases s.len(),
{
    if s.len() == 0 {
        seq![Seq::<char>::empty()]
    } else {
        let prev = split_dots(s.drop_last());
        if s.last() == '.' {
            prev.push(Seq::<char>::empty())
        } else {
            prev.update(prev.len() - 1, prev.last().push(s.last()))
        }
    }
}

/// One or more labels, each followed by a dot, then a top-level label.
pub open spec fn is_host_name(s: Seq<char>) -> bool {
    let parts = split_dots(s);
    &&& parts.len() >= 2
    &&& forall|i: int| 0 <= i < parts.len() - 1 ==> valid_label(#[trigger] parts[i])
    &&& valid_tld(parts.last())
}

/// `c` equals the ASCII letter whose lower and upper case are `lower` and
/// `upper` under case folding.
pub open spec fn folds_to(c: char, lower: char, upper: char) -> bool {
    ||| c == lower
    ||| c == upper
    ||| (lower == 's' && c == '\u{17f}')
    ||| (lower == 'k' && c == '\u{212a}')
}

pub open spec fn localhost_lower() -> Seq<char> {
    seq!['l', 'o', 'c', 'a', 'l', 'h', 'o', 's', 't']
}

pub open spec fn localhost_upper() -> Seq<char> {
    seq!['L', 'O', 'C', 'A', 'L', 'H', 'O', 'S', 'T']
}

/// `localhost`, ignoring case.
pub open spec fn is_localhost(s: Seq<char>) -> bool {
    &&& s.len() == 9
    &&& forall|i: int|
        0 <= i < 9 ==> folds_to(#[trigger] s[i], localhost_lower()[i], localhost_upper()[i])
}

/// The domain pattern, without the length limit.
pub open spec fn matches_domain_pattern(s: Seq<char>) -> bool {
    ||| is_localhost(s)
    ||| is_host_name(s)
    ||| (s.len() >= 2 && s[0] == '*' && s[1] == '.' && is_host_name(s.skip(2)))
}

/// Whether a text is accepted as the domain of a rule: its UTF-8 encoding
/// is shorter than 253 bytes and it matches the domain pattern.
pub open spec fn is_valid_domain(s: Seq<char>) -> bool {
    encode_utf8(s).len() < MAX_DOMAIN_BYTES && matches_domain_pattern(s)
}

// ---------------------------------------------------------------------------
// Lemmas about the splitting
// ---------------------------------------------------------------------------

proof fn lemma_split_nonempty(s: Seq<char>)
    ensures
        split_dots(s).len() >= 1,
    decreases s.len(),
{
    if s.len() > 0 {
        lemma_split_nonempty(s.drop_last());
    }
}

/// Splitting a prefix one character longer.
proof fn lemma_split_step(s: Seq<char>, i: int)
    requires
        0 <= i < s.len(),
    ensures
        ({
            let prev = split_dots(s.take(i));
            let next = split_dots(s.take(i + 1));
            &&& prev.len() >= 1
            &&& s[i] == '.' ==> next == prev.push(Seq::<char>::empty())
            &&& s[i] != '.' ==> next == prev.update(prev.len() - 1, prev.last().push(s[i]))
        }),
{
    lemma_split_nonempty(s.take(i));
    assert(s.take(i + 1).drop_last() =~= s.take(i));
}

/// When no piece of `s` between dots holds `c`, and `c` is not a dot, `s`
/// does not hold `c`.
proof fn lemma_split_excludes(s: Seq<char>, c: char)
    requires
        c != '.',
        forall|p: int, q: int|
            0 <= p < split_dots(s).len() && 0 <= q < split_dots(s)[p].len() ==> #[trigger] split_dots(
                s,
            )[p][q] != c,
    ensures
        forall|j: int| 0 <= j < s.len() ==> s[j] != c,
    decreases s.len(),
{
    if s.len() > 0 {
        let prev = split_dots(s.drop_last());
        let parts = split_dots(s);
        lemma_split_nonempty(s.drop_last());
        if s.last() == '.' {
            assert forall|p: int, q: int|
                0 <= p < prev.len() && 0 <= q < prev[p].len() implies #[trigger] prev[p][q] != c by {
                assert(parts[p] == prev[p]);
                assert(parts[p][q] == prev[p][q]);
            }
        } else {
            let last = prev.len() - 1;
            assert(parts[last] == prev.last().push(s.last()));
            assert forall|p: int, q: int|
                0 <= p < prev.len() && 0 <= q < prev[p].len() implies #[trigger] prev[p][q] != c by {
                if p < last {
                    assert(parts[p] == prev[p]);
                    assert(parts[p][q] == prev[p][q]);
                } else {
                    assert(parts[p][q] == prev[p][q]);
                }
            }
            assert(parts[last][prev.last().len() as int] == s.last());
        }
        lemma_split_excludes(s.drop_last(), c);
        assert forall|j: int| 0 <= j < s.len() implies s[j] != c by {
            if j < s.len() - 1 {
                assert(s[j] == s.drop_last()[j]);
            }
        }
    }
}

/// A host name is not empty, does not end with a dot and holds no slash.
proof fn lemma_host_name_shape(s: Seq<char>)
    requires
        is_host_name(s),
    ensures
        s.len() > 0,
        s.last() != '.',
        forall|j: int| 0 <= j < s.len() ==> s[j] != '/',
{
    let parts = split_dots(s);
    if s.len() == 0 {
        assert(parts == seq![Seq::<char>::empty()]);
    } else if s.last() == '.' {
        assert(parts == split_dots(s.drop_last()).push(Seq::<char>::empty()));
        assert(parts.last().len() == 0);
    }
    assert forall|p: int, q: int|
        0 <= p < parts.len() && 0 <= q < parts[p].len() implies #[trigger] parts[p][q] != '/' by {
        if p < parts.len() - 1 {
            assert(valid_label(parts[p]));
            assert(is_label_char(parts[p][q]));
        } else {
            assert(valid_tld(parts.last()));
            assert(is_letter(parts.last()[q]));
        }
    }
    lemma_split_excludes(s, '/');
}

/// A valid domain is not empty, does not end with a dot and holds no slash.
pub proof fn lemma_valid_domain_shape(s: Seq<char>)
    requires
        is_valid_domain(s),
    ensures
        s.len() > 0,
        s.last() != '.',
        forall|j: int| 0 <= j < s.len() ==> s[j] != '/',
{
    if is_localhost(s) {
        assert(folds_to(s[8], localhost_lower()[8], localhost_upper()[8]));
        assert forall|j: int| 0 <= j < s.len() implies s[j] != '/' by {
            assert(folds_to(s[j], localhost_lower()[j], localhost_upper()[j]));
        }
    } else if is_host_name(s) {
        lemma_host_name_shape(s);
    } else {
        let rest = s.skip(2);
        lemma_host_name_shape(rest);
        assert(s.last() == rest.last());
        assert forall|j: int| 0 <= j < s.len() implies s[j] != '/' by {
            if j >= 2 {
                assert(s[j] == rest[j - 2]);
            }
        }
    }
}

// ---------------------------------------------------------------------------
// Executable checks
// ---------------------------------------------------------------------------

fn is_letter_exec(c: char) -> (b: bool)
    ensures
        b == is_letter(c),
{
    ('a' <= c && c <= 'z') || ('A' <= c && c <= 'Z') || c == '\u{17f}' || c == '\u{212a}'
}

fn is_alnum_exec(c: char) -> (b: bool)
    ensures
        b == is_alnum(c),
{
    is_letter_exec(c) || ('0' <= c && c <= '9')
}

/// Whether `v[start..end]` is a label.
fn check_label(v: &Vec<char>, start: usize, end: usize) -> (b: bool)
    requires
        start <= end <= v.len(),
    ensures
        b == valid_label(v@.subrange(start as int, end as int)),
{
    let ghost l = v@.subrange(start as int, end as int);
    let n = end - start;
    if n < 1 || n > 63 {
        return false;
    }
    if !is_alnum_exec(v[start]) || !is_alnum_exec(v[end - 1]) {
        return false;
    }
    let mut i = start;
    while i < end
        invariant
            start <= i <= end <= v.len(),
            l == v@.subrange(start as int, end as int),
            forall|j: int| 0 <= j < i - start ==> is_label_char(#[trigger] l[j]),
        decreases end - i,
    {
        let c = v[i];
        if !(is_alnum_exec(c) || c == '-') {
            assert(!is_label_char(l[i - start]));
            return false;
        }
        i = i + 1;
    }
    true
}

/// Whether `v[start..end]` is a top-level label.
fn check_tld(v: &Vec<char>, start: usize, end: usize) -> (b: bool)
    requires
        start <= end <= v.len(),
    ensures
        b == valid_tld(v@.subrange(start as int, end as int)),
{
    let ghost l = v@.subrange(start as int, end as int);
    let n = end - start;
    if n < 2 || n > 63 {
        return false;
    }
    let mut i = start;
    while i < end
        invariant
            start <= i <= end <= v.len(),
            l == v@.subrange(start as int, end as int),
            forall|j: int| 0 <= j < i - start ==> is_letter(#[trigger] l[j]),
        decreases end - i,
    {
        if !is_letter_exec(v[i]) {
            assert(!is_letter(l[i - start]));
            return false;
        }
        i = i + 1;
    }
    true
}

/// Whether `v[from..]` is a host name.
fn check_host_name(v: &Vec<char>, from: usize) -> (b: bool)
    requires
        from <= v.len(),
    ensures
        b == is_host_name(v@.skip(from as int)),
{
    let ghost s = v@.skip(from as int);
    let mut start = from;
    let mut i = from;
    let mut closed: usize = 0;
    proof {
        assert(s.take(0) =~= Seq::<char>::empty());
    }
    while i < v.len()
        invariant
            from <= start <= i <= v.len(),
            s == v@.skip(from as int),
            split_dots(s.take(i - from)).len() == closed + 1,
            closed <= i - from,
            split_dots(s.take(i - from)).last() =~= v@.subrange(start as int, i as int),
            forall|j: int|
                0 <= j < closed ==> valid_label(#[trigger] split_dots(s.take(i - from))[j]),
        decreases v.len() - i,
    {
        proof {
            lemma_split_step(s, i - from);
        }
        if v[i] == '.' {
            if !check_label(v, start, i) {
                proof {
                    // The segment that just closed is not a label; it stays a
                    // non-final part of every longer split.
                    assert(split_dots(s.take(i - from + 1))[closed as int] =~= v@.subrange(
                        start as int,
                        i as int,
                    ));
                    lemma_closed_part_stays(s, i - from + 1, closed as int);
                }
                return false;
            }
            closed = closed + 1;
            start = i + 1;
        }
        i = i + 1;
        proof {
            assert(s.take(i - from) =~= s.take(i - from));
        }
    }
    proof {
        assert(s.take(v.len() - from) =~= s);
    }
    closed >= 1 && check_tld(v, start, v.len())
}

/// A part that has been closed by a dot is kept, unchanged and not last, in
/// the split of every longer prefix.
proof fn lemma_closed_part_stays(s: Seq<char>, k: int, j: int)
    requires
        0 <= k <= s.len(),
        0 <= j < split_dots(s.take(k)).len() - 1,
    ensures
        j < split_dots(s).len() - 1,
        split_dots(s)[j] == split_dots(s.take(k))[j],
    decreases s.len() - k,
{
    if k == s.len() {
        assert(s.take(k) =~= s);
    } else {
        lemma_split_step(s, k);
        lemma_closed_part_stays(s, k + 1, j);
    }
}

fn check_localhost(v: &Vec<char>) -> (b: bool)
    ensures
        b == is_localhost(v@),
{
    let lower: [char; 9] = ['l', 'o', 'c', 'a', 'l', 'h', 'o', 's', 't'];
    let upper: [char; 9] = ['L', 'O', 'C', 'A', 'L', 'H', 'O', 'S', 'T'];
    assert(lower@ =~= localhost_lower());
    assert(upper@ =~= localhost_upper());
    if v.len() != 9 {
        return false;
    }
    let mut i: usize = 0;
    while i < 9
        invariant
            0 <= i <= 9,
            v.len() == 9,
            lower@ == localhost_lower(),
            upper@ == localhost_upper(),
            forall|j: int|
                0 <= j < i ==> folds_to(#[trigger] v@[j], localhost_lower()[j], localhost_upper()[j]),
        decreases 9 - i,
    {
        let c = v[i];
        let lo = lower[i];
        let up = upper[i];
        let ok = c == lo || c == up || (lo == 's' && c == '\u{17f}') || (lo == 'k' && c
            == '\u{212a}');
        if !ok {
            assert(!folds_to(v@[i as int], localhost_lower()[i as int], localhost_upper()[i as int]));
            return false;
        }
        i = i + 1;
    }
    true
}

/// Returns whether `domain` may be the domain of a rule: shorter than 253
/// bytes and matching the domain pattern (see the module documentation).
pub fn validate_domain(domain: &str) -> (b: bool)
    ensures
        b == is_valid_domain(domain@),
{
    let v = chars_of(domain);
    if !utf8_len_below(&v, MAX_DOMAIN_BYTES) {
        return false;
    }
    if check_localhost(&v) {
        return true;
    }
    if check_host_name(&v, 0) {
        assert(v@.skip(0) =~= v@);
        return true;
    }
    assert(v@.skip(0) =~= v@);
    if v.len() >= 2 && v[0] == '*' && v[1] == '.' {
        return check_host_name(&v, 2);
    }
    false
}

} // verus!
