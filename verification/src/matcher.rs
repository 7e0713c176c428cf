//! The output matcher: a pure predicate deciding whether a monitor's
//! description satisfies a zone's configured selector. Pattern matching
//! itself is the regex crate's work; everything around it is proved.

use vstd::prelude::*;

verus! {

/// Whether the regex crate accepts `pat` as a pattern. A fixed property of
/// the pattern text alone.
pub uninterp spec fn regex_compiles(pat: Seq<char>) -> bool;

/// Whether the pattern `pat` matches somewhere in `text`. A fixed property
/// of the two texts alone.
pub uninterp spec fn regex_matches(pat: Seq<char>, text: Seq<char>) -> bool;

/// Relies on regex::Regex::new, which accepts or rejects a pattern on its
/// text alone, and regex::Regex::is_match, which decides whether the
/// compiled pattern matches anywhere in the haystack.
#[verifier::external_body]
fn regex_try_is_match(pattern: &str, text: &str) -> (r: Option<bool>)
    ensures
        r is Some <==> regex_compiles(pattern@),
        r is Some ==> r->Some_0 == regex_matches(pattern@, text@),
{
    regex::Regex::new(pattern).ok().map(|re| re.is_match(text))
}

/// What an optional selector makes of a description: no pattern lets every
/// description through, and so does a pattern the regex crate rejects; a
/// compiling pattern decides by matching.
pub open spec fn spec_selector_matches(pattern: Option<Seq<char>>, desc: Seq<char>) -> bool {
    match pattern {
        Option::None => true,
        Option::Some(p) => !regex_compiles(p) || regex_matches(p, desc),
    }
}

/// Decides whether a monitor description satisfies the selector pattern.
pub fn selector_matches(pattern: Option<&String>, description: &str) -> (r: bool)
    ensures
        r == spec_selector_matches(
            match pattern {
                Option::None => None,
                Option::Some(p) => Some(p@),
            },
            description@,
        ),
{
    match pattern {
        Option::None => true,
        Option::Some(p) => match regex_try_is_match(p.as_str(), description) {
            Option::None => true,
            Option::Some(b) => b,
        },
    }
}

/// Law: an absent selector matches any description.
pub proof fn lemma_absent_selector_matches(desc: Seq<char>)
    ensures
        spec_selector_matches(None, desc),
{
}

/// Law: a selector whose pattern compiles matches exactly the descriptions
/// its pattern matches.
pub proof fn lemma_selector_decides(p: Seq<char>, desc: Seq<char>)
    requires
        regex_compiles(p),
    ensures
        spec_selector_matches(Some(p), desc) == regex_matches(p, desc),
{
}

} // verus!
