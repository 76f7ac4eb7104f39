//! Identifier sanitising and casing.
use convert_case::{Case, Casing};
use vstd::prelude::*;
use vstd::string::StringExecFns;

verus! {

/// The casing conventions that generated identifiers follow.
#[derive(Debug, Clone, Copy, PartialEq, Eq, Structural)]
pub enum CaseStyle {
    Snake,
    Pascal,
}

/// `s` with every hyphen rewritten to an underscore, nothing else touched.
pub open spec fn sanitized(s: Seq<char>) -> Seq<char> {
    Seq::new(s.len(), |i: int| if s[i] == '-' { '_' } else { s[i] })
}

/// `s` holds no hyphen.
pub open spec fn hyphen_free(s: Seq<char>) -> bool {
    forall|i: int| 0 <= i < s.len() ==> s[i] != '-'
}

/// What convert_case's `to_case` makes of `s` in the given style.
pub uninterp spec fn cased(s: Seq<char>, style: CaseStyle) -> Seq<char>;

/// What `str::to_lowercase` makes of `s`.
pub uninterp spec fn lowered(s: Seq<char>) -> Seq<char>;

/// Relies on convert_case's `Casing::to_case`: the result depends on the
/// characters and the style alone. In snake case the words are joined by
/// underscores, and a hyphen only ever acts as a word boundary that is
/// dropped, so hyphen-free input gives hyphen-free output.
#[verifier::external_body]
fn to_case(s: &str, style: CaseStyle) -> (r: String)
    ensures
        r@ == cased(s@, style),
        style == CaseStyle::Snake && hyphen_free(s@) ==> hyphen_free(r@),
{
    match style {
        CaseStyle::Snake => s.to_case(Case::Snake),
        CaseStyle::Pascal => s.to_case(Case::Pascal),
    }
}

/// Relies on `str::to_lowercase`: the result depends on the characters
/// alone. It maps each character to its Unicode lowercase form, and no
/// character other than the hyphen has a hyphen in that form.
#[verifier::external_body]
fn to_lowercase(s: &str) -> (r: String)
    ensures
        r@ == lowered(s@),
        hyphen_free(s@) ==> hyphen_free(r@),
{
    s.to_lowercase()
}

/// Rewrites every hyphen in `name` to an underscore.
pub fn sanitize_name(name: &str) -> (r: String)
    ensures
        r@ == sanitized(name@),
        hyphen_free(r@),
{
    let n = name.unicode_len();
    let mut out = String::new();
    let mut i: usize = 0;
    while i < n
        invariant
            n == name@.len(),
            i <= n,
            out@ == sanitized(name@).subrange(0, i as int),
        decreases n - i,
    {
        if name.get_char(i) == '-' {
            proof {
                reveal_strlit("_");
            }
            out = out.concat("_");
        } else {
            out = out.concat(name.substring_char(i, i + 1));
        }
        assert(out@ =~= sanitized(name@).subrange(0, i + 1));
        i = i + 1;
    }
    assert(out@ =~= sanitized(name@));
    out
}

/// The snake_case identifier for a raw shortname.
pub fn snake_identifier(name: &str) -> (r: String)
    ensures
        r@ == cased(sanitized(name@), CaseStyle::Snake),
        hyphen_free(r@),
{
    let clean = sanitize_name(name);
    to_case(clean.as_str(), CaseStyle::Snake)
}

/// The PascalCase identifier for a raw shortname.
pub fn pascal_identifier(name: &str) -> (r: String)
    ensures
        r@ == cased(sanitized(name@), CaseStyle::Pascal),
{
    let clean = sanitize_name(name);
    to_case(clean.as_str(), CaseStyle::Pascal)
}

/// The lower-case identifier for a raw shortname.
pub fn lower_identifier(name: &str) -> (r: String)
    ensures
        r@ == lowered(sanitized(name@)),
        hyphen_free(r@),
{
    let clean = sanitize_name(name);
    to_lowercase(clean.as_str())
}

/// Converts arbitrary text to snake case, as the templates' `snake_case`
/// transform does.
pub fn to_snake_case(s: &str) -> (r: String)
    ensures
        r@ == cased(s@, CaseStyle::Snake),
{
    to_case(s, CaseStyle::Snake)
}

/// Sanitising leaves hyphen-free text as it is, so applying it twice is the
/// same as applying it once.
pub proof fn lemma_sanitize_idempotent(s: Seq<char>)
    ensures
        hyphen_free(sanitized(s)),
        sanitized(sanitized(s)) == sanitized(s),
{
    assert(sanitized(sanitized(s)) =~= sanitized(s));
}

/// Hyphen-free text is a fixed point of sanitising.
pub proof fn lemma_sanitize_fixed_point(s: Seq<char>)
    requires
        hyphen_free(s),
    ensures
        sanitized(s) == s,
{
    assert(sanitized(s) =~= s);
}

} // verus!
