//! Shell-style wildcard patterns for section names.

use vstd::prelude::*;

verus! {

/// The character that stands for any run of characters, the empty one too.
pub const ANY_RUN: char = '*';

/// The character that stands for exactly one character.
pub const ANY_ONE: char = '?';

/// Whether `pattern` matches the whole of `text`.
///
/// `*` matches zero or more characters and `?` matches exactly one; every
/// other character matches itself. There are no bracket classes and no
/// escapes.
pub open spec fn wild_matches(pattern: Seq<char>, text: Seq<char>) -> bool
    decreases pattern.len(), text.len(),
{
    if pattern.len() == 0 {
        text.len() == 0
    } else if pattern[0] == ANY_RUN {
        wild_matches(pattern.skip(1), text) || (text.len() > 0 && wild_matches(
            pattern,
            text.skip(1),
        ))
    } else {
        text.len() > 0 && (pattern[0] == ANY_ONE || pattern[0] == text[0]) && wild_matches(
            pattern.skip(1),
            text.skip(1),
        )
    }
}

/// Whether `pattern` holds no wildcard character.
pub open spec fn is_literal(pattern: Seq<char>) -> bool {
    forall|i: int| 0 <= i < pattern.len() ==> pattern[i] != ANY_RUN && pattern[i] != ANY_ONE
}

/// Calls `wildmatch::WildMatch::new(pattern).matches(text)`.
///
/// The contract claims what the crate documents: the pattern is matched
/// against the entire text, `?` standing for exactly one character and `*`
/// for arbitrarily many, with no escape characters.
#[verifier::external_body]
fn wildmatch_matches(pattern: &str, text: &str) -> (matched: bool)
    ensures
        matched == wild_matches(pattern@, text@),
{
    wildmatch::WildMatch::new(pattern).matches(text)
}

/// Tests a section name against a wildcard pattern.
pub fn is_match(pattern: &str, text: &str) -> (matched: bool)
    ensures
        matched == wild_matches(pattern@, text@),
{
    wildmatch_matches(pattern, text)
}

/// The pattern `*` matches every text.
pub proof fn lemma_star_matches_everything(text: Seq<char>)
    ensures
        wild_matches(seq![ANY_RUN], text),
    decreases text.len(),
{
    let star = seq![ANY_RUN];
    assert(star.skip(1).len() == 0);
    if text.len() == 0 {
        assert(wild_matches(star.skip(1), text));
    } else {
        lemma_star_matches_everything(text.skip(1));
    }
}

/// A pattern without wildcard characters matches itself and nothing else.
pub proof fn lemma_literal_matches_exactly(pattern: Seq<char>, text: Seq<char>)
    requires
        is_literal(pattern),
    ensures
        wild_matches(pattern, text) <==> pattern == text,
    decreases pattern.len(),
{
    if pattern.len() == 0 {
        assert(text.len() == 0 ==> pattern =~= text);
    } else if text.len() == 0 {
    } else {
        let rest = pattern.skip(1);
        assert forall|i: int| 0 <= i < rest.len() implies rest[i] != ANY_RUN && rest[i]
            != ANY_ONE by {
            assert(rest[i] == pattern[i + 1]);
        }
        lemma_literal_matches_exactly(rest, text.skip(1));
        if pattern[0] == text[0] && rest == text.skip(1) {
            assert(pattern =~= seq![pattern[0]] + rest);
            assert(text =~= seq![text[0]] + text.skip(1));
        }
    }
}

} // verus!
