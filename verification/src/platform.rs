//! The operating systems that the daemon knows how to configure.
use vstd::prelude::*;

verus! {

#[derive(Clone, Copy, Debug, PartialEq, Eq, Structural)]
pub enum TargetOs {
    Linux,
    MacOs,
    Windows,
    Other,
}

/// The texts of a list of strings.
pub open spec fn texts(v: Seq<String>) -> Seq<Seq<char>> {
    v.map_values(|s: String| s@)
}

/// Appends `lit` to the list `v`.
pub fn push_text(v: &mut Vec<String>, lit: &str)
    ensures
        texts(final(v)@) == texts(old(v)@).push(lit@),
{
    v.push(String::from_str(lit));
    assert(texts(v@) =~= texts(old(v)@).push(lit@));
}

/// Appends `a` followed by `b` to the list `v`.
pub fn push_joined(v: &mut Vec<String>, a: &str, b: &str)
    ensures
        texts(final(v)@) == texts(old(v)@).push(a@ + b@),
{
    v.push(crate::text::concat(a, b));
    assert(texts(v@) =~= texts(old(v)@).push(a@ + b@));
}

} // verus!
