//! Which reaction a chat message earns.
//!
//! A table of patterns is tried from the top, and the first pattern that is
//! found in the message decides. What a pattern matches is up to the `regex`
//! crate; which entry wins is decided here.

use vstd::prelude::*;

verus! {

/// What `regex` says of a pattern and a text: whether the pattern is found
/// somewhere in the text, or nothing where the pattern does not compile.
pub uninterp spec fn pattern_verdict(pattern: Seq<char>, text: Seq<char>) -> Option<bool>;

/// Compiles `pattern` with `regex::Regex::new` and searches `text` with
/// `Regex::is_match`. The result depends on the two texts alone, and that is
/// all that is claimed of it.
#[verifier::external_body]
fn search(pattern: &str, text: &str) -> (verdict: Option<bool>)
    ensures
        verdict == pattern_verdict(pattern@, text@),
{
    match regex::Regex::new(pattern) {
        Ok(compiled) => Some(compiled.is_match(text)),
        Err(_) => None,
    }
}

/// Whether the entry at `at` is the first whose verdict is a match.
pub open spec fn is_first_hit(verdicts: Seq<Option<bool>>, at: int) -> bool {
    &&& 0 <= at < verdicts.len()
    &&& verdicts[at] == Some(true)
    &&& forall|j: int| 0 <= j < at ==> verdicts[j] != Some(true)
}

/// Whether no verdict is a match.
pub open spec fn no_hit(verdicts: Seq<Option<bool>>) -> bool {
    forall|j: int| 0 <= j < verdicts.len() ==> verdicts[j] != Some(true)
}

/// The verdicts of `patterns` on `text`, entry by entry.
pub open spec fn verdicts_on(patterns: Seq<String>, text: Seq<char>) -> Seq<Option<bool>> {
    Seq::new(patterns.len(), |j: int| pattern_verdict(patterns[j]@, text))
}

/// The place of the first match among `verdicts`. An entry whose pattern did
/// not compile never matches.
pub fn first_hit(verdicts: &Vec<Option<bool>>) -> (found: Option<usize>)
    ensures
        found is Some ==> is_first_hit(verdicts@, found->Some_0 as int),
        found is None ==> no_hit(verdicts@),
{
    let mut i: usize = 0;
    while i < verdicts.len()
        invariant
            i <= verdicts.len(),
            forall|j: int| 0 <= j < i ==> verdicts@[j] != Some(true),
        decreases verdicts.len() - i,
    {
        match verdicts[i] {
            Some(true) => {
                return Some(i);
            },
            _ => {},
        }
        i = i + 1;
    }
    None
}

/// The place of the first of `patterns` that is found in `text`. Patterns
/// after it are not tried.
pub fn first_match(patterns: &Vec<String>, text: &str) -> (found: Option<usize>)
    ensures
        found is Some ==> is_first_hit(verdicts_on(patterns@, text@), found->Some_0 as int),
        found is None ==> no_hit(verdicts_on(patterns@, text@)),
{
    let mut i: usize = 0;
    while i < patterns.len()
        invariant
            i <= patterns.len(),
            forall|j: int| 0 <= j < i ==> verdicts_on(patterns@, text@)[j] != Some(true),
        decreases patterns.len() - i,
    {
        match search(patterns[i].as_str(), text) {
            Some(true) => {
                return Some(i);
            },
            _ => {},
        }
        i = i + 1;
    }
    None
}

} // verus!
