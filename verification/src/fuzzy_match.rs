//! Fuzzy matching of a pattern against a text.

use fuzzy_matcher::skim::SkimMatcherV2;
use fuzzy_matcher::FuzzyMatcher;
use vstd::prelude::*;

use crate::text;

verus! {

/// The longest text, in characters, that can be matched: beyond it the matcher's 32-bit scores
/// could overflow.
pub const TEXT_LIMIT: usize = 0x03ff_fffe;

/// In texts of up to this many characters the positions that the matcher finds are always those of
/// a match. In longer ones the penalty for a gap can outgrow the number that stands for "no match"
/// in the matcher's score matrix.
pub const EXACT_LIMIT: usize = 1024;

/// A matrix with a row for each character of a pattern and a column for each character of a text
/// (and one more of either) can be allocated, at sixteen bytes a cell, by a vector that doubles
/// its room when it grows. None is needed for a pattern that is longer than the text.
pub open spec fn fits_matrix(pattern_len: nat, text_len: nat) -> bool {
    pattern_len > text_len || (pattern_len + 1) * (text_len + 1) * 32 <= isize::MAX
}

/// Whether a matrix for a pattern and a text of these lengths can be allocated.
pub fn matrix_fits(pattern_len: usize, text_len: usize) -> (fits: bool)
    requires
        text_len <= TEXT_LIMIT,
    ensures
        fits == fits_matrix(pattern_len as nat, text_len as nat),
{
    if pattern_len > text_len {
        return true;
    }
    let rows: u64 = pattern_len as u64 + 1;
    let cols: u64 = text_len as u64 + 1;
    assert(0 <= rows * cols <= 0x03ff_ffff * 0x03ff_ffff) by (nonlinear_arith)
        requires
            rows <= 0x03ff_ffff,
            cols <= 0x03ff_ffff,
    ;
    rows * cols * 32 <= isize::MAX as u64
}

/// A text of this length can be matched: its scores are in range, and the two rows of a matrix
/// that scoring needs can be allocated, at sixteen bytes a cell, with room to double.
pub open spec fn matchable_len(len: nat) -> bool {
    len <= TEXT_LIMIT && 64 * (len + 1) <= isize::MAX
}

/// Is one of `A` to `Z`.
pub open spec fn is_ascii_upper(c: char) -> bool {
    'A' <= c <= 'Z'
}

/// The lower-case form of an ASCII letter; other characters stay as they are.
pub open spec fn ascii_lower(c: char) -> char {
    if is_ascii_upper(c) {
        (c as u32 + 32) as char
    } else {
        c
    }
}

/// Case matters to a pattern that holds an ASCII upper-case letter.
pub open spec fn case_sensitive(pattern: Seq<char>) -> bool {
    exists|i: int| 0 <= i < pattern.len() && is_ascii_upper(#[trigger] pattern[i])
}

/// A character of a text matches one of a pattern.
pub open spec fn chars_match(c: char, p: char, case_sensitive: bool) -> bool {
    if case_sensitive {
        c == p
    } else {
        ascii_lower(c) == ascii_lower(p)
    }
}

/// The characters of `pattern` match those of `text` at the increasing positions `at`.
pub open spec fn matches_at(text: Seq<char>, pattern: Seq<char>, at: Seq<int>) -> bool {
    &&& at.len() == pattern.len()
    &&& forall|i: int|
        0 <= i < at.len() ==> 0 <= #[trigger] at[i] < text.len() && chars_match(
            text[at[i]],
            pattern[i],
            case_sensitive(pattern),
        )
    &&& forall|i: int, j: int| 0 <= i < j < at.len() ==> #[trigger] at[i] < #[trigger] at[j]
}

/// The characters of `pattern` occur in `text` in their order, with any gaps between them.
pub open spec fn occurs_in(text: Seq<char>, pattern: Seq<char>) -> bool {
    exists|at: Seq<int>| matches_at(text, pattern, at)
}

/// The positions increase, and each is that of a character of a text of length `len`.
pub open spec fn positions_within(at: Seq<usize>, len: nat) -> bool {
    &&& forall|i: int| 0 <= i < at.len() ==> #[trigger] at[i] < len
    &&& forall|i: int, j: int| 0 <= i < j < at.len() ==> #[trigger] at[i] < #[trigger] at[j]
}

/// Positions as mathematical integers.
pub open spec fn as_ints(at: Seq<usize>) -> Seq<int> {
    at.map_values(|position: usize| position as int)
}

/// The scores that `fuzzy_match` of a `SkimMatcherV2` with default settings can give a text for a
/// pattern that occurs in it. There can be several: the matcher keeps its score matrix from call to
/// call, on each thread, and bonuses that earlier calls left there can change a score.
pub uninterp spec fn skim_scores(text: Seq<char>, pattern: Seq<char>) -> Set<i64>;

/// The scores and positions that `fuzzy_indices` of a `SkimMatcherV2` with default settings can
/// give for a text and a pattern that occurs in it, whatever was matched before.
pub uninterp spec fn skim_finds(text: Seq<char>, pattern: Seq<char>) -> Set<(i64, Seq<usize>)>;

/// Matching `pattern` against `text` can have this outcome: a score exactly if the pattern occurs
/// in the text, one that the matcher can give, and 0 if the pattern is empty.
pub open spec fn can_score(text: Seq<char>, pattern: Seq<char>, score: Option<i64>) -> bool {
    &&& match score {
        Some(value) => occurs_in(text, pattern) && skim_scores(text, pattern).contains(value),
        None => !occurs_in(text, pattern),
    }
    &&& pattern.len() == 0 ==> score == Some(0i64)
}

/// Looking for `pattern` in `text` can have this outcome: a score and positions exactly if the
/// pattern occurs in the text, such as the matcher can give, the positions increasing and inside
/// the text; score 0 and no positions if the pattern is empty.
pub open spec fn can_find(
    text: Seq<char>,
    pattern: Seq<char>,
    found: Option<(i64, Seq<usize>)>,
) -> bool {
    &&& match found {
        Some((score, at)) => occurs_in(text, pattern) && skim_finds(text, pattern).contains(
            (score, at),
        ) && positions_within(at, text.len()) && (text.len() <= EXACT_LIMIT ==> matches_at(
            text,
            pattern,
            as_ints(at),
        )),
        None => !occurs_in(text, pattern),
    }
    &&& pattern.len() == 0 ==> found == Some((0i64, Seq::<usize>::empty()))
}

/// The matcher of the `fuzzy_matcher` crate. Nothing inside it is known here.
#[verifier::external_type_specification]
#[verifier::external_body]
pub struct ExSkimMatcherV2(fuzzy_matcher::skim::SkimMatcherV2);

/// Calls `fuzzy_matcher::skim::SkimMatcherV2::default`, which makes a matcher with default
/// settings and an empty cache. Nothing is claimed of it.
#[verifier::external_body]
fn skim_default() -> (skim: SkimMatcherV2) {
    SkimMatcherV2::default()
}

/// A matcher with default settings.
pub struct Matcher {
    skim: SkimMatcherV2,
}

impl Matcher {
    /// A matcher that has matched nothing yet.
    pub fn new() -> (matcher: Matcher) {
        Matcher { skim: skim_default() }
    }
}

/// Calls `fuzzy_match` of the `fuzzy_matcher::skim::SkimMatcherV2` in a matcher, which has default
/// settings.
///
/// Believed of it: there is a score exactly when the pattern occurs in the text in order, case
/// counting only if the pattern holds an ASCII upper-case letter; the empty pattern scores 0 on
/// every text; and the score is one of those that such a matcher can give for this text and this
/// pattern. Which of these it is, and how high they are, is not said: the first depends on what was
/// matched before.
#[verifier::external_body]
fn skim_fuzzy_match(matcher: &Matcher, text: &str, pattern: &str) -> (score: Option<i64>)
    requires
        matchable_len(text@.len()),
    ensures
        score is Some <==> occurs_in(text@, pattern@),
        score is Some ==> skim_scores(text@, pattern@).contains(score.unwrap()),
        pattern@.len() == 0 ==> score == Some(0i64),
{
    matcher.skim.fuzzy_match(text, pattern)
}

/// Calls `fuzzy_indices` of the `fuzzy_matcher::skim::SkimMatcherV2` in a matcher, which has
/// default settings.
///
/// Believed of it: there are a score and positions exactly when the pattern occurs in the text in
/// order; for the empty pattern the score is 0 and there are no positions; the positions increase
/// and are positions of characters of the text; in a text of up to `EXACT_LIMIT` characters there
/// is one for each character of the pattern, and it is that of a character that matches; and both
/// are such as a matcher like this can give for this text and this pattern. Which of several
/// possible positions it prefers is not said.
#[verifier::external_body]
fn skim_fuzzy_indices(matcher: &Matcher, text: &str, pattern: &str) -> (found: Option<
    (i64, Vec<usize>),
>)
    requires
        matchable_len(text@.len()),
        fits_matrix(pattern@.len(), text@.len()),
    ensures
        found is Some <==> occurs_in(text@, pattern@),
        match found {
            Some((score, at)) => skim_finds(text@, pattern@).contains((score, at@))
                && positions_within(at@, text@.len()),
            None => true,
        },
        found is Some && text@.len() <= EXACT_LIMIT ==> matches_at(
            text@,
            pattern@,
            as_ints(found.unwrap().1@),
        ),
        pattern@.len() == 0 ==> found is Some && found.unwrap().0 == 0 && found.unwrap().1@.len()
            == 0,
{
    matcher.skim.fuzzy_indices(text, pattern)
}

/// What was found, as a value.
pub open spec fn found_view(found: Option<(i64, Vec<usize>)>) -> Option<(i64, Seq<usize>)> {
    match found {
        Some((score, at)) => Some((score, at@)),
        None => None,
    }
}

/// A pattern to be matched against texts.
pub struct FuzzyQuery {
    pattern: String,
}

impl View for FuzzyQuery {
    type V = Seq<char>;

    closed spec fn view(&self) -> Seq<char> {
        self.pattern@
    }
}

impl FuzzyQuery {
    /// A query for `pattern`.
    pub fn new(pattern: &str) -> (query: FuzzyQuery)
        ensures
            query@ == pattern@,
    {
        FuzzyQuery { pattern: pattern.to_owned() }
    }

    /// The score that the matcher gives `item`, or nothing if the pattern does not occur in it.
    pub fn fuzzy_match(&self, item: &str, matcher: &Matcher) -> (score: Option<i64>)
        requires
            matchable_len(item@.len()),
        ensures
            can_score(item@, self@, score),
            score is Some <==> occurs_in(item@, self@),
            score is Some ==> skim_scores(item@, self@).contains(score.unwrap()),
            self@.len() == 0 ==> score == Some(0i64),
    {
        skim_fuzzy_match(matcher, item, self.pattern.as_str())
    }

    /// The score that the matcher gives `item` and the positions of the characters that match, or
    /// nothing if the pattern does not occur in it.
    pub fn fuzzy_indicies(&self, item: &str, matcher: &Matcher) -> (found: Option<
        (i64, Vec<usize>),
    >)
        requires
            matchable_len(item@.len()),
            fits_matrix(self@.len(), item@.len()),
        ensures
            can_find(item@, self@, found_view(found)),
            found is Some <==> occurs_in(item@, self@),
            match found {
                Some((score, at)) => {
                    &&& skim_finds(item@, self@).contains((score, at@))
                    &&& forall|i: int| 0 <= i < at@.len() ==> #[trigger] at@[i] < item@.len()
                    &&& forall|i: int, j: int|
                        0 <= i < j < at@.len() ==> #[trigger] at@[i] < #[trigger] at@[j]
                    &&& item@.len() <= EXACT_LIMIT ==> at@.len() == self@.len() && forall|i: int|
                        0 <= i < at@.len() ==> chars_match(
                            item@[#[trigger] at@[i] as int],
                            self@[i],
                            case_sensitive(self@),
                        )
                },
                None => true,
            },
    {
        let found = skim_fuzzy_indices(matcher, item, self.pattern.as_str());
        proof {
            if self@.len() == 0 {
                assert(found.unwrap().1@ =~= Seq::<usize>::empty());
            }
        }
        proof {
            if found is Some {
                let at = found.unwrap().1@;
                assert forall|i: int|
                    item@.len() <= EXACT_LIMIT && 0 <= i < at.len() implies chars_match(
                    item@[#[trigger] at[i] as int],
                    self@[i],
                    case_sensitive(self@),
                ) by {
                    assert(as_ints(at)[i] == at[i]);
                }
                assert(as_ints(at).len() == at.len());
            }
        }
        found
    }
}

/// A longer pattern is more specific: a text in which it occurs is one in which every prefix of
/// it occurs.
pub proof fn law_longer_patterns_match_less(item: Seq<char>, pattern: Seq<char>, prefix: Seq<char>)
    requires
        text::has_prefix(pattern, prefix),
        occurs_in(item, pattern),
    ensures
        occurs_in(item, prefix),
{
    let at = choose|at: Seq<int>| matches_at(item, pattern, at);
    let start = at.take(prefix.len() as int);
    assert forall|i: int| 0 <= i < prefix.len() implies #[trigger] prefix[i] == pattern[i] by {
        assert(pattern.take(prefix.len() as int)[i] == pattern[i]);
    }
    assert(case_sensitive(prefix) ==> case_sensitive(pattern)) by {
        if case_sensitive(prefix) {
            let i = choose|i: int| 0 <= i < prefix.len() && is_ascii_upper(#[trigger] prefix[i]);
            assert(is_ascii_upper(pattern[i]));
        }
    }
    assert forall|i: int| 0 <= i < start.len() implies 0 <= #[trigger] start[i] < item.len()
        && chars_match(item[start[i]], prefix[i], case_sensitive(prefix)) by {
        assert(start[i] == at[i]);
        assert(prefix[i] == pattern[i]);
    }
    assert(matches_at(item, prefix, start));
}

/// The empty pattern occurs in every text.
pub proof fn law_empty_pattern_matches_all(text: Seq<char>)
    ensures
        occurs_in(text, seq![]),
{
    assert(matches_at(text, seq![], seq![]));
}

/// A matched text has a score that the matcher gives for this very text and pattern, at any length
/// of the text; a text has a score exactly if the pattern's characters occur in it in order.
pub proof fn law_scores_come_from_the_matcher(
    text: Seq<char>,
    pattern: Seq<char>,
    score: Option<i64>,
)
    requires
        can_score(text, pattern, score),
    ensures
        score is Some <==> exists|at: Seq<int>| matches_at(text, pattern, at),
        forall|value: i64| score == Some(value) ==> #[trigger] skim_scores(text, pattern).contains(
            value,
        ),
        pattern.len() == 0 ==> score == Some(0i64),
{
}

/// Case counts exactly if the pattern holds one of `A` to `Z`: otherwise a letter matches itself
/// and its other case, and every other character only itself.
pub proof fn law_case_counts_with_upper_case(c: char, p: char)
    ensures
        chars_match(c, p, true) <==> c == p,
        'a' <= p <= 'z' ==> (chars_match(c, p, false) <==> c == p || c as int + 32 == p as int),
        'A' <= p <= 'Z' ==> (chars_match(c, p, false) <==> c == p || c as int == p as int + 32),
        !('a' <= p <= 'z') && !('A' <= p <= 'Z') ==> (chars_match(c, p, false) <==> c == p),
{
}

/// Texts and patterns of up to 1024 characters can be matched on every machine.
pub proof fn law_short_texts_can_be_matched(pattern_len: nat, text_len: nat)
    requires
        pattern_len <= 1024,
        text_len <= 1024,
    ensures
        matchable_len(text_len),
        fits_matrix(pattern_len, text_len),
{
    assert((pattern_len + 1) * (text_len + 1) * 32 <= 1025 * 1025 * 32) by (nonlinear_arith)
        requires
            pattern_len <= 1024,
            text_len <= 1024,
    ;
}

} // verus!
