use vstd::prelude::*;

verus! {

/// Whether `pat` is a valid regular expression — whether `regex::Regex::new`
/// accepts it. Depends on the pattern alone.
pub uninterp spec fn pattern_valid(pat: Seq<char>) -> bool;

/// Whether the regular expression `pat` matches anywhere in `text`. Depends
/// on the pattern and the text alone.
pub uninterp spec fn pattern_matches(pat: Seq<char>, text: Seq<char>) -> bool;

/// The expansion of `template` against the first match of `pat` in `text`:
/// each `$n` / `$name` reference replaced by the corresponding captured
/// substring, unset groups by the empty string. Depends on the three
/// arguments alone. Meaningful only when `pat` is valid and matches `text`.
pub uninterp spec fn pattern_expansion(pat: Seq<char>, text: Seq<char>, template: Seq<char>) -> Seq<char>;

/// Relies on `regex::Regex::new`: it returns `Ok` exactly for the patterns
/// it accepts, and acceptance is a function of the pattern string alone.
#[verifier::external_body]
pub(crate) fn pattern_compiles(pat: &str) -> (r: bool)
    ensures
        r == pattern_valid(pat@),
{
    regex::Regex::new(pat).is_ok()
}

/// Relies on `regex::Regex::new` and `regex::Regex::is_match`: a compiled
/// pattern is a function of its source string, and `is_match` reports
/// whether it matches anywhere in the haystack. The two calls stand in one
/// body because a compiled `regex::Regex` is opaque here: only the source
/// string it was built from can be spoken of.
#[verifier::external_body]
pub(crate) fn pattern_is_match(pat: &str, text: &str) -> (r: bool)
    requires
        pattern_valid(pat@),
    ensures
        r == pattern_matches(pat@, text@),
{
    regex::Regex::new(pat).unwrap().is_match(text)
}

/// Relies on `regex::Regex::new`, `regex::Regex::captures` and
/// `regex::Captures::expand`: `captures` returns `Some` exactly when the
/// pattern matches somewhere in the text (the same condition `is_match`
/// reports), and `expand` appends the template with each group reference
/// replaced by that first match's captured substrings — a function of
/// pattern, text and template alone. The calls stand in one body for the
/// same reason as above.
#[verifier::external_body]
pub(crate) fn pattern_rewrite(pat: &str, text: &str, template: &str) -> (r: Option<String>)
    requires
        pattern_valid(pat@),
    ensures
        r is Some <==> pattern_matches(pat@, text@),
        r matches Some(s) ==> s@ == pattern_expansion(pat@, text@, template@),
{
    regex::Regex::new(pat).unwrap().captures(text).map(
        |caps| {
            let mut out = String::new();
            caps.expand(template, &mut out);
            out
        },
    )
}

} // verus!
