//! Text helpers: case/space/underscore-insensitive normalization for name
//! lookup, built on the standard library's string operations.

use vstd::prelude::*;

verus! {

/// Are the two string slices equal?
pub fn str_eq(a: &str, b: &str) -> (r: bool)
    ensures
        r == (a@ == b@),
{
    let sa = String::from_str(a);
    let sb = String::from_str(b);
    sa == sb
}

/// Does `cs` consist only of lower-case ASCII letters and digits? Such a
/// string is already in normalized form.
pub open spec fn is_canon_seq(cs: Seq<char>) -> bool {
    forall|i: int|
        0 <= i < cs.len() ==> (('a' as u32 <= cs[i] as u32 && cs[i] as u32 <= 'z' as u32) || (
        '0' as u32 <= cs[i] as u32 && cs[i] as u32 <= '9' as u32))
}

/// What `str::trim` returns.
pub uninterp spec fn trim_of(s: Seq<char>) -> Seq<char>;

/// Relies on str::trim: leading and trailing whitespace is removed, so a
/// string of lower-case letters and digits comes back unchanged.
#[verifier::external_body]
pub fn trim_str(s: &str) -> (r: &str)
    ensures
        r@ == trim_of(s@),
        is_canon_seq(s@) ==> r@ == s@,
{
    s.trim()
}

/// What `str::to_lowercase` returns.
pub uninterp spec fn lower_of(s: Seq<char>) -> Seq<char>;

/// Relies on str::to_lowercase: the result depends on the characters alone,
/// and characters without an upper-case form come back unchanged.
#[verifier::external_body]
pub fn lowercase_str(s: &str) -> (r: String)
    ensures
        r@ == lower_of(s@),
        is_canon_seq(s@) ==> r@ == s@,
{
    s.to_lowercase()
}

/// What `str::replace` returns.
pub uninterp spec fn replace_of(s: Seq<char>, from: Seq<char>, to: Seq<char>) -> Seq<char>;

/// Relies on str::replace: every match of `from` is replaced by `to`, so a
/// string in which `from` never occurs comes back unchanged.
#[verifier::external_body]
pub fn replace_str(s: &str, from: &str, to: &str) -> (r: String)
    ensures
        r@ == replace_of(s@, from@, to@),
        (forall|i: int|
            0 <= i <= s@.len() - from@.len() ==> #[trigger] s@.subrange(
                i,
                i + from@.len() as int,
            ) != from@) ==> r@ == s@,
{
    s.replace(from, to)
}

/// Relies on str::split_once: splits on the first colon, yielding the text
/// before and after it; a string without a colon yields nothing.
#[verifier::external_body]
pub fn split_once_colon(s: &str) -> (r: Option<(&str, &str)>)
    ensures
        r matches Some(parts) ==> s@ == parts.0@ + ":"@ + parts.1@,
{
    s.split_once(':')
}

/// Relies on str::starts_with: true exactly when `prefix` is a prefix of
/// `s`.
#[verifier::external_body]
pub fn starts_with_str(s: &str, prefix: &str) -> (r: bool)
    ensures
        r == (prefix@.len() <= s@.len() && s@.subrange(0, prefix@.len() as int) == prefix@),
{
    s.starts_with(prefix)
}

/// The normalized form a name lookup matches on: trimmed, lower-cased, and
/// with spaces and underscores removed.
pub open spec fn canonical_of(s: Seq<char>) -> Seq<char> {
    replace_of(replace_of(lower_of(trim_of(s)), " "@, ""@), "_"@, ""@)
}

/// Normalize `s` for name lookup. A string that is already lower-case
/// letters and digits comes back unchanged.
pub fn canonicalize(s: &str) -> (r: String)
    ensures
        r@ == canonical_of(s@),
        is_canon_seq(s@) ==> r@ == s@,
{
    proof {
        reveal_strlit(" ");
        reveal_strlit("_");
    }
    let t = trim_str(s);
    let l = lowercase_str(t);
    proof {
        if is_canon_seq(s@) {
            assert forall|i: int| 0 <= i <= l@.len() - " "@.len() implies (#[trigger] l@.subrange(
                i,
                i + " "@.len() as int,
            )) != " "@ by {
                assert(l@.subrange(i, i + 1)[0] == l@[i]);
            }
        }
    }
    let r1 = replace_str(l.as_str(), " ", "");
    proof {
        if is_canon_seq(s@) {
            assert forall|i: int| 0 <= i <= r1@.len() - "_"@.len() implies (#[trigger] r1@.subrange(
                i,
                i + "_"@.len() as int,
            )) != "_"@ by {
                assert(r1@.subrange(i, i + 1)[0] == r1@[i]);
            }
        }
    }
    let r2 = replace_str(r1.as_str(), "_", "");
    r2
}

} // verus!
