//! Matches and their order.

use std::cmp::Ordering;
use vstd::prelude::*;

verus! {

/// An option that the current query matches.
#[derive(Clone, Copy, PartialEq, Eq, Structural, Debug)]
pub struct PickerMatch {
    /// Position of the option in the picker's list of options.
    pub index: usize,
    /// How well the option matches; higher is better.
    pub score: i64,
    /// Length of the option's filter text in characters.
    pub len: usize,
}

impl PickerMatch {
    /// `self` may stand before `other`: it scores higher, or as high with a text that is no longer.
    pub open spec fn ranks_before(self, other: PickerMatch) -> bool {
        self.score > other.score || (self.score == other.score && self.len <= other.len)
    }

    /// The order of matches as a three-way comparison.
    pub open spec fn ordering_to(self, other: PickerMatch) -> Ordering {
        if self.score == other.score && self.len == other.len {
            Ordering::Equal
        } else if self.ranks_before(other) {
            Ordering::Less
        } else {
            Ordering::Greater
        }
    }

    /// Compares two matches: the higher score comes first, and of equal scores the shorter text.
    /// The position of the option plays no part.
    pub fn cmp(&self, other: &PickerMatch) -> (ordering: Ordering)
        ensures
            ordering == self.ordering_to(*other),
    {
        if self.score > other.score {
            Ordering::Less
        } else if self.score < other.score {
            Ordering::Greater
        } else if self.len < other.len {
            Ordering::Less
        } else if self.len > other.len {
            Ordering::Greater
        } else {
            Ordering::Equal
        }
    }

    /// Whether `self` may stand before `other`.
    fn may_precede(&self, other: &PickerMatch) -> (before: bool)
        ensures
            before == self.ranks_before(*other),
    {
        match PickerMatch::cmp(self, other) {
            Ordering::Less => true,
            Ordering::Equal => true,
            Ordering::Greater => false,
        }
    }
}

impl PartialOrd for PickerMatch {
    fn partial_cmp(&self, other: &PickerMatch) -> (ordering: Option<Ordering>) {
        Some(PickerMatch::cmp(self, other))
    }
}

impl vstd::std_specs::cmp::PartialOrdSpecImpl for PickerMatch {
    open spec fn obeys_partial_cmp_spec() -> bool {
        true
    }

    open spec fn partial_cmp_spec(&self, other: &PickerMatch) -> Option<Ordering> {
        Some(self.ordering_to(*other))
    }
}

/// No match stands before one that ranks above it.
pub open spec fn ranked(matches: Seq<PickerMatch>) -> bool {
    forall|i: int, j: int|
        0 <= i < j < matches.len() ==> (#[trigger] matches[i]).ranks_before(#[trigger] matches[j])
}

/// `sorted` holds the matches of `matches`, in ranked order.
pub open spec fn is_ranking_of(sorted: Seq<PickerMatch>, matches: Seq<PickerMatch>) -> bool {
    &&& ranked(sorted)
    &&& sorted.to_multiset() == matches.to_multiset()
}

/// The match that every option gets while there is nothing to match against: all options in
/// their own order, with score 0. `lens` holds the lengths of their filter texts.
pub open spec fn unfiltered(lens: Seq<usize>) -> Seq<PickerMatch> {
    Seq::new(lens.len(), |i: int| PickerMatch { index: i as usize, score: 0, len: lens[i] })
}

/// The options with a score, in their own order: option `i` matched with score `scores[i]`, or
/// not at all, and `lens[i]` is the length of its filter text.
pub open spec fn filtered(lens: Seq<usize>, scores: Seq<Option<i64>>) -> Seq<PickerMatch>
    decreases scores.len(),
{
    if scores.len() == 0 {
        seq![]
    } else {
        let rest = filtered(lens, scores.drop_last());
        let i = scores.len() - 1;
        match scores[i] {
            Some(score) => rest.push(PickerMatch { index: i as usize, score, len: lens[i] }),
            None => rest,
        }
    }
}

/// The matches that matched again, in their order, each with its new score: match `i` got score
/// `scores[i]`, or none.
pub open spec fn refined(matches: Seq<PickerMatch>, scores: Seq<Option<i64>>) -> Seq<PickerMatch>
    decreases scores.len(),
{
    if scores.len() == 0 {
        seq![]
    } else {
        let rest = refined(matches, scores.drop_last());
        let i = scores.len() - 1;
        match scores[i] {
            Some(score) => rest.push(PickerMatch { score, ..matches[i] }),
            None => rest,
        }
    }
}

/// Every match names an option and carries the length of its filter text, and no option is
/// matched twice.
pub open spec fn valid_matches(matches: Seq<PickerMatch>, lens: Seq<usize>) -> bool {
    &&& forall|i: int|
        0 <= i < matches.len() ==> {
            &&& (#[trigger] matches[i]).index < lens.len()
            &&& matches[i].len == lens[matches[i].index as int]
        }
    &&& forall|i: int, j: int|
        0 <= i < j < matches.len() ==> (#[trigger] matches[i]).index != (
        #[trigger] matches[j]).index
}

/// Option `index` is among the matches.
pub open spec fn lists(matches: Seq<PickerMatch>, index: int) -> bool {
    exists|i: int| 0 <= i < matches.len() && (#[trigger] matches[i]).index == index
}

/// The scores of the matched options, where option `i` scored `scores[i]`.
pub open spec fn scores_of_matches(
    matches: Seq<PickerMatch>,
    scores: Seq<Option<i64>>,
) -> Seq<Option<i64>> {
    Seq::new(matches.len(), |i: int| scores[matches[i].index as int])
}

/// The order of matches is total and transitive, and two matches rank before each other exactly
/// when score and length agree.
pub proof fn law_order_is_total(a: PickerMatch, b: PickerMatch, c: PickerMatch)
    ensures
        a.ranks_before(b) || b.ranks_before(a),
        a.ranks_before(b) && b.ranks_before(c) ==> a.ranks_before(c),
        a.ranks_before(b) && b.ranks_before(a) <==> a.score == b.score && a.len == b.len,
{
}

/// In a ranked list the first match has the highest score, and among the matches with that score
/// the shortest text.
pub proof fn law_first_is_best(matches: Seq<PickerMatch>, i: int)
    requires
        ranked(matches),
        0 <= i < matches.len(),
    ensures
        matches[0].score >= matches[i].score,
        matches[0].score == matches[i].score ==> matches[0].len <= matches[i].len,
{
}

/// The unfiltered list shows every option.
pub proof fn law_unfiltered_lists_all(lens: Seq<usize>)
    requires
        lens.len() <= usize::MAX,
    ensures
        valid_matches(unfiltered(lens), lens),
        forall|i: int| 0 <= i < lens.len() ==> #[trigger] lists(unfiltered(lens), i),
{
    assert forall|i: int| 0 <= i < lens.len() implies #[trigger] lists(unfiltered(lens), i) by {
        assert(unfiltered(lens)[i].index == i);
    }
}

/// The filtered list holds exactly the options with a score, each once, with its own score and
/// length.
pub proof fn law_filtered_lists_the_scored(lens: Seq<usize>, scores: Seq<Option<i64>>)
    requires
        scores.len() <= lens.len() <= usize::MAX,
    ensures
        valid_matches(filtered(lens, scores), lens),
        forall|m: PickerMatch|
            filtered(lens, scores).contains(m) <==> m.index < scores.len() && scores[m.index as int]
                == Some(m.score) && m.len == lens[m.index as int],
        forall|i: int| 0 <= i < scores.len() ==> (#[trigger] lists(filtered(lens, scores), i) <==> scores[i] is Some),
    decreases scores.len(),
{
    let all = filtered(lens, scores);
    if scores.len() > 0 {
        let shorter = scores.drop_last();
        let rest = filtered(lens, shorter);
        let last = scores.len() - 1;
        law_filtered_lists_the_scored(lens, shorter);
        assert forall|i: int| 0 <= i < rest.len() implies (#[trigger] rest[i]).index < last by {
            assert(rest.contains(rest[i]));
        }
        assert forall|m: PickerMatch|
            all.contains(m) <==> m.index < scores.len() && scores[m.index as int] == Some(m.score)
                && m.len == lens[m.index as int] by {
            if m.index < last {
                assert(shorter[m.index as int] == scores[m.index as int]);
            }
            if rest.contains(m) {
                let k = choose|k: int| 0 <= k < rest.len() && rest[k] == m;
                assert(all[k] == m);
            }
            if all.contains(m) {
                let k = choose|k: int| 0 <= k < all.len() && all[k] == m;
                if k < rest.len() {
                    assert(rest[k] == m);
                    assert(rest.contains(m));
                }
            }
            if m.index == last && scores[last] == Some(m.score) && m.len == lens[last] {
                assert(all[rest.len() as int] == m);
            }
        }
    }
    assert forall|i: int| 0 <= i < scores.len() implies (#[trigger] lists(all, i) <==> scores[i] is Some) by {
        if lists(all, i) {
            let k = choose|k: int| 0 <= k < all.len() && (#[trigger] all[k]).index == i;
            assert(all.contains(all[k]));
        }
        if let Some(score) = scores[i] {
            let m = PickerMatch { index: i as usize, score, len: lens[i] };
            assert(all.contains(m));
            let k = choose|k: int| 0 <= k < all.len() && all[k] == m;
            assert(all[k].index == i);
        }
    }
}

/// Refining a list keeps exactly the matches with a new score, in their old order, and changes
/// nothing of them but the score.
pub proof fn law_refined_keeps_the_scored(
    matches: Seq<PickerMatch>,
    scores: Seq<Option<i64>>,
    lens: Seq<usize>,
)
    requires
        valid_matches(matches, lens),
        scores.len() <= matches.len(),
    ensures
        valid_matches(refined(matches, scores), lens),
        forall|m: PickerMatch|
            refined(matches, scores).contains(m) <==> exists|i: int|
                0 <= i < scores.len() && #[trigger] scores[i] == Some(m.score) && m == (PickerMatch {
                    score: m.score,
                    ..matches[i]
                }),
    decreases scores.len(),
{
    let all = refined(matches, scores);
    if scores.len() > 0 {
        let shorter = scores.drop_last();
        let rest = refined(matches, shorter);
        let last = scores.len() - 1;
        law_refined_keeps_the_scored(matches, shorter, lens);
        assert forall|k: int| 0 <= k < rest.len() implies exists|i: int|
            0 <= i < last && #[trigger] scores[i] == Some(rest[k].score) && #[trigger] rest[k]
                == (PickerMatch { score: rest[k].score, ..matches[i] }) by {
            assert(rest.contains(rest[k]));
            let i = choose|i: int|
                0 <= i < shorter.len() && #[trigger] shorter[i] == Some(rest[k].score) && rest[k]
                    == (PickerMatch { score: rest[k].score, ..matches[i] });
            assert(scores[i] == Some(rest[k].score));
        }
        assert forall|m: PickerMatch|
            all.contains(m) <==> exists|i: int|
                0 <= i < scores.len() && #[trigger] scores[i] == Some(m.score) && m == (PickerMatch {
                    score: m.score,
                    ..matches[i]
                }) by {
            if all.contains(m) {
                let k = choose|k: int| 0 <= k < all.len() && all[k] == m;
                if k < rest.len() {
                    assert(rest[k] == m);
                } else {
                    assert(scores[last] == Some(m.score));
                }
            }
            if exists|i: int|
                0 <= i < scores.len() && #[trigger] scores[i] == Some(m.score) && m == (PickerMatch {
                    score: m.score,
                    ..matches[i]
                }) {
                let i = choose|i: int|
                    0 <= i < scores.len() && #[trigger] scores[i] == Some(m.score) && m == (PickerMatch {
                        score: m.score,
                        ..matches[i]
                    });
                if i < last {
                    assert(shorter[i] == Some(m.score));
                    assert(rest.contains(m));
                    let k = choose|k: int| 0 <= k < rest.len() && rest[k] == m;
                    assert(all[k] == m);
                } else {
                    assert(all[rest.len() as int] == m);
                }
            }
        }
    }
}

proof fn lemma_valid_has_no_duplicates(matches: Seq<PickerMatch>, lens: Seq<usize>)
    requires
        valid_matches(matches, lens),
    ensures
        matches.no_duplicates(),
{
}

/// A ranking of valid matches is valid and lists the same options.
pub proof fn law_ranking_keeps_matches(
    sorted: Seq<PickerMatch>,
    matches: Seq<PickerMatch>,
    lens: Seq<usize>,
)
    requires
        is_ranking_of(sorted, matches),
        valid_matches(matches, lens),
    ensures
        valid_matches(sorted, lens),
        sorted.len() == matches.len(),
        forall|m: PickerMatch| sorted.contains(m) <==> matches.contains(m),
        forall|i: int| lists(sorted, i) <==> lists(matches, i),
{
    broadcast use vstd::seq_lib::group_to_multiset_ensures;

    lemma_valid_has_no_duplicates(matches, lens);
    matches.lemma_multiset_has_no_duplicates();
    sorted.lemma_multiset_has_no_duplicates_conv();
    assert(sorted.len() == sorted.to_multiset().len());
    assert(matches.len() == matches.to_multiset().len());
    assert forall|m: PickerMatch| sorted.contains(m) <==> matches.contains(m) by {
        assert(sorted.contains(m) <==> sorted.to_multiset().count(m) > 0);
        assert(matches.contains(m) <==> matches.to_multiset().count(m) > 0);
    }
    assert forall|i: int| 0 <= i < sorted.len() implies exists|k: int|
        0 <= k < matches.len() && #[trigger] matches[k] == #[trigger] sorted[i] by {
        assert(sorted.contains(sorted[i]));
    }
    assert forall|i: int| 0 <= i < matches.len() implies exists|k: int|
        0 <= k < sorted.len() && #[trigger] sorted[k] == #[trigger] matches[i] by {
        assert(matches.contains(matches[i]));
    }
    assert forall|i: int, j: int| 0 <= i < j < sorted.len() implies (#[trigger] sorted[i]).index
        != (#[trigger] sorted[j]).index by {
        let a = choose|k: int| 0 <= k < matches.len() && #[trigger] matches[k] == sorted[i];
        let b = choose|k: int| 0 <= k < matches.len() && #[trigger] matches[k] == sorted[j];
        assert(a != b);
    }
}

/// Rescoring only the options listed so far gives the same ranking as rescoring all of them, as
/// long as every option that now has a score was listed.
pub proof fn law_refining_is_rescoring(
    matches: Seq<PickerMatch>,
    lens: Seq<usize>,
    scores: Seq<Option<i64>>,
    kept: Seq<PickerMatch>,
)
    requires
        valid_matches(matches, lens),
        scores.len() == lens.len(),
        lens.len() <= usize::MAX,
        forall|i: int| 0 <= i < scores.len() && scores[i] is Some ==> #[trigger] lists(matches, i),
        is_ranking_of(kept, refined(matches, scores_of_matches(matches, scores))),
    ensures
        is_ranking_of(kept, filtered(lens, scores)),
{
    broadcast use vstd::seq_lib::group_to_multiset_ensures;

    let again = scores_of_matches(matches, scores);
    let narrow = refined(matches, again);
    let wide = filtered(lens, scores);
    law_refined_keeps_the_scored(matches, again, lens);
    law_filtered_lists_the_scored(lens, scores);
    assert forall|m: PickerMatch| narrow.contains(m) <==> wide.contains(m) by {
        if narrow.contains(m) {
            let i = choose|i: int|
                0 <= i < again.len() && #[trigger] again[i] == Some(m.score) && m == (PickerMatch {
                    score: m.score,
                    ..matches[i]
                });
            assert(matches[i].index == m.index);
        }
        if wide.contains(m) {
            assert(lists(matches, m.index as int));
            let i = choose|i: int| 0 <= i < matches.len() && (#[trigger] matches[i]).index == m.index;
            assert(again[i] == Some(m.score));
        }
    }
    lemma_valid_has_no_duplicates(narrow, lens);
    lemma_valid_has_no_duplicates(wide, lens);
    narrow.lemma_multiset_has_no_duplicates();
    wide.lemma_multiset_has_no_duplicates();
    assert forall|m: PickerMatch|
        narrow.to_multiset().count(m) == wide.to_multiset().count(m) by {
        assert(narrow.contains(m) <==> narrow.to_multiset().count(m) > 0);
        assert(wide.contains(m) <==> wide.to_multiset().count(m) > 0);
    }
    assert(narrow.to_multiset() =~= wide.to_multiset());
}

proof fn lemma_merge_step(
    done: Seq<PickerMatch>,
    left: Seq<PickerMatch>,
    right: Seq<PickerMatch>,
    i: int,
    j: int,
)
    requires
        0 <= i < left.len(),
        0 <= j <= right.len(),
        done.to_multiset() == left.take(i).to_multiset().add(right.take(j).to_multiset()),
    ensures
        done.push(left[i]).to_multiset() == left.take(i + 1).to_multiset().add(
            right.take(j).to_multiset(),
        ),
{
    broadcast use vstd::seq_lib::group_to_multiset_ensures;

    assert(left.take(i + 1) =~= left.take(i).push(left[i]));
    assert(left.take(i).to_multiset().insert(left[i]).add(right.take(j).to_multiset())
        =~= left.take(i).to_multiset().add(right.take(j).to_multiset()).insert(left[i]));
}

/// Merges two ranked lists into one.
fn merge(left: &Vec<PickerMatch>, right: &Vec<PickerMatch>) -> (merged: Vec<PickerMatch>)
    requires
        ranked(left@),
        ranked(right@),
    ensures
        ranked(merged@),
        merged@.to_multiset() == left@.to_multiset().add(right@.to_multiset()),
{
    let mut merged: Vec<PickerMatch> = Vec::new();
    let mut i: usize = 0;
    let mut j: usize = 0;
    proof {
        broadcast use vstd::seq_lib::group_to_multiset_ensures;

        assert(merged@.to_multiset() =~= left@.take(0).to_multiset().add(
            right@.take(0).to_multiset(),
        ));
    }
    while i < left.len() || j < right.len()
        invariant
            i <= left.len(),
            j <= right.len(),
            ranked(left@),
            ranked(right@),
            ranked(merged@),
            merged@.to_multiset() == left@.take(i as int).to_multiset().add(
                right@.take(j as int).to_multiset(),
            ),
            forall|a: int, b: int|
                0 <= a < merged@.len() && i <= b < left@.len()
                    ==> (#[trigger] merged@[a]).ranks_before(#[trigger] left@[b]),
            forall|a: int, b: int|
                0 <= a < merged@.len() && j <= b < right@.len()
                    ==> (#[trigger] merged@[a]).ranks_before(#[trigger] right@[b]),
        decreases left.len() - i + right.len() - j,
    {
        let from_left = if i == left.len() {
            false
        } else if j == right.len() {
            true
        } else {
            left[i].may_precede(&right[j])
        };
        if from_left {
            proof {
                lemma_merge_step(merged@, left@, right@, i as int, j as int);
            }
            merged.push(left[i]);
            i = i + 1;
        } else {
            proof {
                let taken = left@.take(i as int).to_multiset();
                let rest = right@.take(j as int).to_multiset();
                assert(rest.add(taken) =~= taken.add(rest));
                lemma_merge_step(merged@, right@, left@, j as int, i as int);
                let rest = right@.take(j + 1).to_multiset();
                assert(rest.add(taken) =~= taken.add(rest));
            }
            merged.push(right[j]);
            j = j + 1;
        }
    }
    proof {
        assert(left@.take(i as int) =~= left@);
        assert(right@.take(j as int) =~= right@);
    }
    merged
}

/// The matches from `from` up to `to`.
fn slice(matches: &Vec<PickerMatch>, from: usize, to: usize) -> (part: Vec<PickerMatch>)
    requires
        from <= to <= matches.len(),
    ensures
        part@ == matches@.subrange(from as int, to as int),
{
    let mut part: Vec<PickerMatch> = Vec::new();
    let mut i: usize = from;
    while i < to
        invariant
            from <= i <= to <= matches.len(),
            part@ == matches@.subrange(from as int, i as int),
        decreases to - i,
    {
        part.push(matches[i]);
        proof {
            assert(matches@.subrange(from as int, i + 1) =~= matches@.subrange(
                from as int,
                i as int,
            ).push(matches@[i as int]));
        }
        i = i + 1;
    }
    part
}

/// Sorts matches into ranked order.
pub fn rank(matches: Vec<PickerMatch>) -> (sorted: Vec<PickerMatch>)
    ensures
        is_ranking_of(sorted@, matches@),
    decreases matches.len(),
{
    if matches.len() < 2 {
        return matches;
    }
    let middle: usize = matches.len() / 2;
    let left = rank(slice(&matches, 0, middle));
    let right = rank(slice(&matches, middle, matches.len()));
    proof {
        let front = matches@.subrange(0, middle as int);
        let back = matches@.subrange(middle as int, matches@.len() as int);
        assert(front + back =~= matches@);
        vstd::seq_lib::lemma_multiset_commutative(front, back);
    }
    merge(&left, &right)
}

/// Lists every option, in the options' own order.
pub fn list_all(lens: &Vec<usize>) -> (matches: Vec<PickerMatch>)
    ensures
        matches@ == unfiltered(lens@),
{
    let mut matches: Vec<PickerMatch> = Vec::new();
    let mut i: usize = 0;
    while i < lens.len()
        invariant
            i <= lens.len(),
            matches@ == unfiltered(lens@).take(i as int),
        decreases lens.len() - i,
    {
        matches.push(PickerMatch { index: i, score: 0, len: lens[i] });
        proof {
            assert(unfiltered(lens@).take(i + 1) =~= unfiltered(lens@).take(i as int).push(
                unfiltered(lens@)[i as int],
            ));
        }
        i = i + 1;
    }
    proof {
        assert(unfiltered(lens@).take(i as int) =~= unfiltered(lens@));
    }
    matches
}

/// Keeps the options that have a score and ranks them.
pub fn rank_scored(lens: &Vec<usize>, scores: &Vec<Option<i64>>) -> (matches: Vec<PickerMatch>)
    requires
        lens.len() == scores.len(),
    ensures
        is_ranking_of(matches@, filtered(lens@, scores@)),
{
    let mut matches: Vec<PickerMatch> = Vec::new();
    let mut i: usize = 0;
    proof {
        assert(scores@.take(0) =~= seq![]);
    }
    while i < scores.len()
        invariant
            i <= scores.len(),
            lens.len() == scores.len(),
            matches@ == filtered(lens@, scores@.take(i as int)),
        decreases scores.len() - i,
    {
        proof {
            assert(scores@.take(i + 1).drop_last() =~= scores@.take(i as int));
        }
        if let Some(score) = scores[i] {
            matches.push(PickerMatch { index: i, score, len: lens[i] });
        }
        i = i + 1;
    }
    proof {
        assert(scores@.take(i as int) =~= scores@);
    }
    rank(matches)
}

/// Keeps the matches that matched again, gives each its new score and ranks them.
pub fn rank_rescored(matches: &Vec<PickerMatch>, scores: &Vec<Option<i64>>) -> (kept: Vec<
    PickerMatch,
>)
    requires
        matches.len() == scores.len(),
    ensures
        is_ranking_of(kept@, refined(matches@, scores@)),
{
    let mut kept: Vec<PickerMatch> = Vec::new();
    let mut i: usize = 0;
    proof {
        assert(scores@.take(0) =~= seq![]);
    }
    while i < scores.len()
        invariant
            i <= scores.len(),
            matches.len() == scores.len(),
            kept@ == refined(matches@, scores@.take(i as int)),
        decreases scores.len() - i,
    {
        proof {
            assert(scores@.take(i + 1).drop_last() =~= scores@.take(i as int));
        }
        if let Some(score) = scores[i] {
            kept.push(PickerMatch { index: matches[i].index, score, len: matches[i].len });
        }
        i = i + 1;
    }
    proof {
        assert(scores@.take(i as int) =~= scores@);
    }
    rank(kept)
}

/// A match comes before another exactly if it scores higher, or as high with a shorter text; the
/// two are equal in order exactly if score and length agree.
pub proof fn law_order_goes_by_score_and_length(a: PickerMatch, b: PickerMatch)
    ensures
        a.ordering_to(b) is Less <==> a.score > b.score || (a.score == b.score && a.len < b.len),
        a.ordering_to(b) is Equal <==> a.score == b.score && a.len == b.len,
        a.ordering_to(b) is Greater <==> b.ordering_to(a) is Less,
        a.ranks_before(b) <==> !(a.ordering_to(b) is Greater),
{
}

/// Sorting keeps every match as often as it was there, and puts no match before one that scores
/// higher, or as high with a shorter text.
pub proof fn law_ranking_is_in_order(
    sorted: Seq<PickerMatch>,
    matches: Seq<PickerMatch>,
    i: int,
    j: int,
)
    requires
        is_ranking_of(sorted, matches),
        0 <= i < j < sorted.len(),
    ensures
        sorted.to_multiset() == matches.to_multiset(),
        sorted[i].score >= sorted[j].score,
        sorted[i].score == sorted[j].score ==> sorted[i].len <= sorted[j].len,
{
}

/// While there is nothing to match against, place `i` of the list holds option `i`, with score 0
/// and the length of its text.
pub proof fn law_unfiltered_is_in_place(lens: Seq<usize>, i: int)
    requires
        0 <= i < lens.len() <= usize::MAX,
    ensures
        unfiltered(lens).len() == lens.len(),
        unfiltered(lens)[i].index == i,
        unfiltered(lens)[i].score == 0,
        unfiltered(lens)[i].len == lens[i],
{
}

} // verus!
