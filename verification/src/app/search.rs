//! The search filter: which file names a typed term keeps.

use crate::utils::ImagePath;
use fuzzy_matcher::skim::SkimMatcherV2;
use fuzzy_matcher::FuzzyMatcher;
use vstd::prelude::*;
use vstd::string::*;

verus! {

/// The longest name or term, in characters, that is handed to the matcher.
/// The matcher adds up its scores in 32-bit integers, a few dozen points per
/// character at most: texts of this length stay far from that limit.
pub const MATCH_LIMIT: usize = 65536;

/// Whether `c` is one of `A` to `Z`.
pub open spec fn is_ascii_upper(c: char) -> bool {
    0x41 <= c as u32 <= 0x5a
}

/// The code of `c`, that of the lower-case letter for `A` to `Z`.
pub open spec fn ascii_lower(c: char) -> int {
    if is_ascii_upper(c) {
        c as u32 + 32
    } else {
        c as u32 as int
    }
}

/// Whether a term asks for an exact match of case: it does as soon as it
/// holds one of `A` to `Z`.
pub open spec fn case_sensitive(term: Seq<char>) -> bool {
    exists|i: int| 0 <= i < term.len() && is_ascii_upper(#[trigger] term[i])
}

/// Whether a character of a name answers a character of the term.
pub open spec fn chars_match(c: char, p: char, exact: bool) -> bool {
    if exact {
        c == p
    } else {
        ascii_lower(c) == ascii_lower(p)
    }
}

/// Whether the characters of `term` occur in `name` in their order, each
/// answered by a character of its own.
pub open spec fn occurs_in_order(term: Seq<char>, name: Seq<char>, exact: bool) -> bool
    decreases name.len(),
{
    if term.len() == 0 {
        true
    } else if name.len() == 0 {
        false
    } else if chars_match(name[0], term[0], exact) {
        occurs_in_order(term.drop_first(), name.drop_first(), exact)
    } else {
        occurs_in_order(term, name.drop_first(), exact)
    }
}

/// Whether the search term keeps the name: its characters occur in the name
/// in order, without regard to the case of ASCII letters unless the term
/// itself holds an upper-case one. The empty term keeps every name.
pub open spec fn fuzzy_matches(name: Seq<char>, term: Seq<char>) -> bool {
    occurs_in_order(term, name, case_sensitive(term))
}

/// `fuzzy_match` of `fuzzy_matcher`'s `SkimMatcherV2` in its default setting
/// (smart case, no element limit). The contract says when a score comes back
/// and nothing of the score: for the empty pattern always, else when a greedy
/// walk through the choice finds every pattern character in turn, compared
/// exactly if the pattern holds an ASCII upper-case letter and by
/// `eq_ignore_ascii_case` otherwise.
#[verifier::external_body]
fn skim_score(choice: &str, pattern: &str) -> (score: Option<i64>)
    requires
        choice@.len() <= MATCH_LIMIT,
        pattern@.len() <= MATCH_LIMIT,
    ensures
        score is Some <==> fuzzy_matches(choice@, pattern@),
{
    SkimMatcherV2::default().fuzzy_match(choice, pattern)
}

/// Whether a text is short enough for the matcher.
pub fn within_match_limit(text: &str) -> (short: bool)
    ensures
        short == (text@.len() <= MATCH_LIMIT),
{
    text.unicode_len() <= MATCH_LIMIT
}

/// Whether the search term keeps the name.
pub fn matches_term(name: &str, term: &str) -> (kept: bool)
    requires
        name@.len() <= MATCH_LIMIT,
        term@.len() <= MATCH_LIMIT,
    ensures
        kept == fuzzy_matches(name@, term@),
{
    skim_score(name, term).is_some()
}

/// Whether every file name of the list is short enough for the matcher.
pub open spec fn names_within_limit(paths: Seq<ImagePath>) -> bool {
    forall|i: int| 0 <= i < paths.len() ==> (#[trigger] paths[i]).file_name@.len() <= MATCH_LIMIT
}

/// The entries whose file name the term keeps, in their order.
pub open spec fn kept_by(paths: Seq<ImagePath>, term: Seq<char>) -> Seq<ImagePath> {
    paths.filter(|p: ImagePath| fuzzy_matches(p.file_name@, term))
}

/// The empty term keeps every name, and so every entry of a list.
pub proof fn lemma_empty_term_keeps_all(paths: Seq<ImagePath>)
    ensures
        forall|name: Seq<char>| fuzzy_matches(name, Seq::<char>::empty()),
        kept_by(paths, Seq::<char>::empty()) == paths,
    decreases paths.len(),
{
    reveal(Seq::filter);
    if paths.len() > 0 {
        lemma_empty_term_keeps_all(paths.drop_last());
        assert(fuzzy_matches(paths.last().file_name@, Seq::<char>::empty()));
        assert(paths.drop_last().push(paths.last()) =~= paths);
    } else {
        assert(kept_by(paths, Seq::<char>::empty()) =~= paths);
    }
}

/// Whether every file name of the list is short enough for the matcher.
pub fn check_names(paths: &Vec<ImagePath>) -> (short: bool)
    ensures
        short == names_within_limit(paths@),
{
    let mut i: usize = 0;
    while i < paths.len()
        invariant
            i <= paths.len(),
            forall|j: int| 0 <= j < i ==> (#[trigger] paths@[j]).file_name@.len() <= MATCH_LIMIT,
        decreases paths.len() - i,
    {
        if !within_match_limit(paths[i].file_name.as_str()) {
            return false;
        }
        i += 1;
    }
    true
}

/// The entries of `paths` whose file name the term keeps, in their order.
pub fn filter_paths(paths: &Vec<ImagePath>, term: &str) -> (kept: Vec<ImagePath>)
    requires
        names_within_limit(paths@),
        term@.len() <= MATCH_LIMIT,
    ensures
        kept@ == kept_by(paths@, term@),
{
    let ghost pred = |p: ImagePath| fuzzy_matches(p.file_name@, term@);
    let mut kept: Vec<ImagePath> = Vec::new();
    let mut i: usize = 0;
    proof {
        reveal(Seq::filter);
        assert(paths@.take(0).filter(pred) =~= Seq::<ImagePath>::empty());
    }
    while i < paths.len()
        invariant
            i <= paths.len(),
            names_within_limit(paths@),
            term@.len() <= MATCH_LIMIT,
            pred == |p: ImagePath| fuzzy_matches(p.file_name@, term@),
            kept@ == paths@.take(i as int).filter(pred),
        decreases paths.len() - i,
    {
        let entry = &paths[i];
        proof {
            reveal(Seq::filter);
            assert(paths@.take(i + 1).drop_last() =~= paths@.take(i as int));
            assert(paths@.take(i + 1).last() == paths@[i as int]);
        }
        if matches_term(entry.file_name.as_str(), term) {
            kept.push(entry.duplicate());
        }
        i += 1;
    }
    assert(paths@.take(paths@.len() as int) =~= paths@);
    kept
}

} // verus!
