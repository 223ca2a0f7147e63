//! Character-level helpers over strings.
use vstd::prelude::*;
use vstd::utf8::{char_is_scalar, encode_scalar, encode_utf8};

verus! {

/// The characters of `s`, in order.
pub fn chars_of(s: &str) -> (v: Vec<char>)
    ensures
        v@ == s@,
{
    let mut v: Vec<char> = Vec::new();
    for c in it: s.chars()
        invariant
            v@ == it.seq().take(it.index() as int),
            it.seq() == s@,
    {
        v.push(c);
    }
    v
}

} // verus!

verus! {

/// Whether `a[a_from..]` and `b` hold the same characters.
pub fn tail_equals(a: &Vec<char>, a_from: usize, b: &Vec<char>) -> (r: bool)
    requires
        a_from <= a.len(),
    ensures
        r == (a@.skip(a_from as int) == b@),
{
    if a.len() - a_from != b.len() {
        assert(a@.skip(a_from as int).len() != b@.len());
        return false;
    }
    let mut i: usize = 0;
    while i < b.len()
        invariant
            a_from <= a.len(),
            a.len() - a_from == b.len(),
            0 <= i <= b.len(),
            forall|j: int| 0 <= j < i ==> a@[a_from + j] == b@[j],
        decreases b.len() - i,
    {
        if a[a_from + i] != b[i] {
            assert(a@.skip(a_from as int)[i as int] != b@[i as int]);
            return false;
        }
        i = i + 1;
    }
    assert(a@.skip(a_from as int) =~= b@);
    true
}

/// Whether `a` and `b` hold the same characters.
pub fn str_equals(a: &str, b: &str) -> (r: bool)
    ensures
        r == (a@ == b@),
{
    let va = chars_of(a);
    let vb = chars_of(b);
    let r = tail_equals(&va, 0, &vb);
    assert(va@.skip(0) =~= va@);
    r
}

} // verus!

verus! {

/// The lower-case form of a text, as `str::to_lowercase` gives it (full
/// Unicode case mapping).
pub uninterp spec fn lowercase(s: Seq<char>) -> Seq<char>;

/// `str::to_lowercase`.
#[verifier::external_body]
pub(crate) fn to_lower(s: &str) -> (r: String)
    ensures
        r@ == lowercase(s@),
{
    s.to_lowercase()
}

/// `a` followed by `b`.
pub fn concat(a: &str, b: &str) -> (r: String)
    ensures
        r@ == a@ + b@,
{
    let mut r = String::new();
    r.append(a);
    r.append(b);
    r
}

/// `a`, `b` and `c`, one after the other.
pub fn concat3(a: &str, b: &str, c: &str) -> (r: String)
    ensures
        r@ == a@ + b@ + c@,
{
    let mut r = String::new();
    r.append(a);
    r.append(b);
    r.append(c);
    r
}

} // verus!

verus! {

/// Encoding a concatenation concatenates the encodings.
pub proof fn lemma_encode_concat(a: Seq<char>, b: Seq<char>)
    ensures
        encode_utf8(a + b) == encode_utf8(a) + encode_utf8(b),
    decreases a.len(),
{
    if a.len() == 0 {
        assert(a + b =~= b);
        assert(encode_utf8(a) =~= Seq::<u8>::empty());
        assert(encode_utf8(a) + encode_utf8(b) =~= encode_utf8(b));
    } else {
        assert((a + b).drop_first() =~= a.drop_first() + b);
        assert((a + b)[0] == a[0]);
        lemma_encode_concat(a.drop_first(), b);
        assert(encode_utf8(a + b) =~= encode_utf8(a) + encode_utf8(b));
    }
}

/// Whether the UTF-8 encoding of the characters of `v` is shorter than
/// `limit` bytes.
pub fn utf8_len_below(v: &Vec<char>, limit: usize) -> (b: bool)
    ensures
        b == (encode_utf8(v@).len() < limit),
{
    if limit == 0 {
        return false;
    }
    let mut total: usize = 0;
    let mut i: usize = 0;
    assert(v@.take(0) =~= Seq::<char>::empty());
    while i < v.len()
        invariant
            0 <= i <= v.len(),
            total == encode_utf8(v@.take(i as int)).len(),
            total < limit,
        decreases v.len() - i,
    {
        let c = v[i];
        let u = c as u32;
        proof {
            char_is_scalar(c);
            lemma_encode_concat(v@.take(i as int), seq![c]);
            assert(v@.take(i + 1) =~= v@.take(i as int) + seq![c]);
            assert(seq![c].drop_first() =~= Seq::<char>::empty());
        }
        let width: usize = if u <= 0x7f {
            1
        } else if u <= 0x7ff {
            2
        } else if u <= 0xffff {
            3
        } else {
            4
        };
        proof {
            assert(encode_utf8(Seq::<char>::empty()) =~= Seq::<u8>::empty());
            assert(encode_utf8(seq![c]) =~= encode_scalar(u) + encode_utf8(seq![c].drop_first()));
            assert(encode_utf8(seq![c]).len() == width);
        }
        if width >= limit - total {
            proof {
                lemma_encode_concat(v@.take(i + 1), v@.skip(i + 1));
                assert(v@.take(i + 1) + v@.skip(i + 1) =~= v@);
            }
            return false;
        }
        total = total + width;
        i = i + 1;
    }
    assert(v@.take(v.len() as int) =~= v@);
    true
}

} // verus!

verus! {

/// `String::push`.
#[verifier::external_body]
pub(crate) fn push_char(s: &mut String, c: char)
    ensures
        final(s)@ == old(s)@.push(c),
{
    s.push(c)
}

pub open spec fn digit_char(d: nat) -> char {
    seq!['0', '1', '2', '3', '4', '5', '6', '7', '8', '9'][d as int]
}

/// The decimal digits of `n`, without leading zeros.
pub open spec fn decimal(n: nat) -> Seq<char>
    decreases n,
{
    if n < 10 {
        seq![digit_char(n)]
    } else {
        decimal(n / 10).push(digit_char(n % 10))
    }
}

/// Appends the decimal digits of `n` to `s`.
pub fn push_decimal(s: &mut String, n: u64)
    ensures
        final(s)@ == old(s)@ + decimal(n as nat),
    decreases n,
{
    if n >= 10 {
        push_decimal(s, n / 10);
    }
    let digits: [char; 10] = ['0', '1', '2', '3', '4', '5', '6', '7', '8', '9'];
    assert(digits@ =~= seq!['0', '1', '2', '3', '4', '5', '6', '7', '8', '9']);
    let d = (n % 10) as usize;
    push_char(s, digits[d]);
    assert(s@ =~= old(s)@ + decimal(n as nat));
}

/// `s` with every `*.` (scanning from the left) replaced by `rep`.
pub open spec fn replace_star_dot(s: Seq<char>, rep: Seq<char>) -> Seq<char>
    decreases s.len(),
{
    if s.len() == 0 {
        s
    } else if s.len() >= 2 && s[0] == '*' && s[1] == '.' {
        rep + replace_star_dot(s.skip(2), rep)
    } else {
        seq![s[0]] + replace_star_dot(s.skip(1), rep)
    }
}

/// Replacing `*.` brings in no character that neither `s` nor `rep` holds.
pub proof fn lemma_replace_star_dot_excludes(s: Seq<char>, rep: Seq<char>, c: char)
    requires
        forall|j: int| 0 <= j < s.len() ==> s[j] != c,
        forall|j: int| 0 <= j < rep.len() ==> rep[j] != c,
    ensures
        forall|j: int|
            0 <= j < replace_star_dot(s, rep).len() ==> #[trigger] replace_star_dot(s, rep)[j] != c,
    decreases s.len(),
{
    if s.len() > 0 {
        let k: int = if s.len() >= 2 && s[0] == '*' && s[1] == '.' {
            2
        } else {
            1
        };
        let rest = s.skip(k);
        assert forall|j: int| 0 <= j < rest.len() implies rest[j] != c by {
            assert(rest[j] == s[j + k]);
        }
        lemma_replace_star_dot_excludes(rest, rep, c);
        let head: Seq<char> = if k == 2 {
            rep
        } else {
            seq![s[0]]
        };
        let r = replace_star_dot(s, rep);
        assert(r == head + replace_star_dot(rest, rep));
        assert forall|j: int| 0 <= j < r.len() implies #[trigger] r[j] != c by {
            if j >= head.len() {
                assert(r[j] == replace_star_dot(rest, rep)[j - head.len()]);
            } else {
                assert(r[j] == head[j]);
            }
        }
    }
}

/// Replacing `*.` in a text that does not end with a dot leaves some text.
pub proof fn lemma_replace_star_dot_nonempty(s: Seq<char>, rep: Seq<char>)
    requires
        s.len() > 0,
        s.last() != '.',
    ensures
        replace_star_dot(s, rep).len() > 0,
    decreases s.len(),
{
    if s.len() >= 2 && s[0] == '*' && s[1] == '.' {
        let rest = s.skip(2);
        assert(rest.last() == s.last());
        lemma_replace_star_dot_nonempty(rest, rep);
    }
}

/// `s.replace("*.", rep)`.
pub fn replace_star_dot_exec(s: &str, rep: &str) -> (r: String)
    ensures
        r@ == replace_star_dot(s@, rep@),
{
    let v = chars_of(s);
    let mut r = String::new();
    let mut i: usize = 0;
    assert(v@.skip(0) =~= v@);
    while i < v.len()
        invariant
            0 <= i <= v.len(),
            v@ == s@,
            r@ + replace_star_dot(v@.skip(i as int), rep@) == replace_star_dot(v@, rep@),
        decreases v.len() - i,
    {
        let ghost rest = v@.skip(i as int);
        if i + 1 < v.len() && v[i] == '*' && v[i + 1] == '.' {
            assert(rest.skip(2) =~= v@.skip(i + 2));
            r.append(rep);
            assert(r@ + replace_star_dot(v@.skip(i + 2), rep@) =~= replace_star_dot(v@, rep@));
            i = i + 2;
        } else {
            assert(rest.skip(1) =~= v@.skip(i + 1));
            push_char(&mut r, v[i]);
            assert(r@ + replace_star_dot(v@.skip(i + 1), rep@) =~= replace_star_dot(v@, rep@));
            i = i + 1;
        }
    }
    assert(v@.skip(v.len() as int) =~= Seq::<char>::empty());
    assert(r@ =~= r@ + Seq::<char>::empty());
    r
}

/// Whether `s` starts with `*.`.
pub fn starts_with_star_dot(s: &str) -> (r: bool)
    ensures
        r == (s@.len() >= 2 && s@[0] == '*' && s@[1] == '.'),
{
    let v = chars_of(s);
    v.len() >= 2 && v[0] == '*' && v[1] == '.'
}

/// The text of `s` after its first `k` characters.
pub fn skip_chars(s: &str, k: usize) -> (r: String)
    requires
        k <= s@.len(),
    ensures
        r@ == s@.skip(k as int),
{
    let v = chars_of(s);
    let mut r = String::new();
    let mut i = k;
    while i < v.len()
        invariant
            k <= i <= v.len(),
            v@ == s@,
            r@ == s@.subrange(k as int, i as int),
        decreases v.len() - i,
    {
        push_char(&mut r, v[i]);
        i = i + 1;
    }
    r
}

} // verus!
