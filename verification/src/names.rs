//! Canonical package names: the key under which a package is looked up,
//! whatever the case and the separators in which its name was written.

use vstd::prelude::*;

verus! {

/// What `str::to_lowercase` makes of a text: each character replaced by its
/// lowercase form as Unicode defines it.
pub uninterp spec fn lowercase_of(text: Seq<char>) -> Seq<char>;

/// A character with the hyphen folded into the underscore.
pub open spec fn folded(c: char) -> char {
    if c == '-' {
        '_'
    } else {
        c
    }
}

/// A text with every hyphen replaced by an underscore.
pub open spec fn fold_separators(text: Seq<char>) -> Seq<char> {
    text.map_values(|c: char| folded(c))
}

/// The canonical form of a name.
pub open spec fn canonical(name: Seq<char>) -> Seq<char> {
    fold_separators(lowercase_of(name))
}

/// Calls `str::to_lowercase`. Trusted: the result is the lowercase form
/// that the standard library computes, which depends on the text alone.
#[verifier::external_body]
fn to_lowercase(text: &str) -> (lower: String)
    ensures
        lower@ == lowercase_of(text@),
{
    text.to_lowercase()
}

/// A text with every `from` replaced by `to`.
pub open spec fn replaced_by(text: Seq<char>, from: char, to: char) -> Seq<char> {
    text.map_values(|c: char| if c == from { to } else { c })
}

/// Calls `str::replace` with a character as pattern and a replacement of one
/// character. Trusted: every occurrence of `from` is replaced, and every
/// other character stays in its place.
#[verifier::external_body]
fn replace_char(text: &str, from: char, to: &str) -> (replaced: String)
    requires
        to@.len() == 1,
    ensures
        replaced@ == replaced_by(text@, from, to@[0]),
{
    text.replace(from, to)
}

/// The canonical name of a package: its name in lowercase, with
/// underscores for hyphens.
pub fn canonical_name(name: &str) -> (canon: String)
    ensures
        canon@ == canonical(name@),
{
    let lower = to_lowercase(name);
    proof {
        reveal_strlit("_");
    }
    let canon = replace_char(lower.as_str(), '-', "_");
    assert(canon@ =~= canonical(name@));
    canon
}

/// Names that differ only in hyphens and underscores, once in lowercase,
/// share one canonical name; and a canonical name holds no hyphen.
pub proof fn law_separators_fold(name: Seq<char>)
    ensures
        canonical(name).len() == lowercase_of(name).len(),
        forall|i: int| 0 <= i < canonical(name).len() ==> #[trigger] canonical(name)[i] != '-',
        fold_separators(fold_separators(lowercase_of(name))) == canonical(name),
{
    assert(fold_separators(fold_separators(lowercase_of(name))) =~= canonical(name));
}

} // verus!
