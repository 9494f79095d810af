//! What the list of a picker holds, and in what order.

use vstd::prelude::*;

use crate::fuzzy_match;
use crate::item::Item;
use crate::picker;
use crate::picker::PickerView;
use crate::ranking;
use crate::ranking::PickerMatch;
use crate::text;

verus! {

/// A new picker lists every option in its own place, with score 0 and the length of its text. Its
/// prompt is empty, the cursor is on the first entry, the preview is shown and labels lose their
/// start.
pub proof fn law_new_picker_lists_every_option<T, S>(options: Seq<Item<T, S>>, i: int)
    requires
        options.len() <= usize::MAX,
        0 <= i < options.len() ==> options[i].filter_text@.len() <= usize::MAX,
    ensures
        ({
            let view = PickerView::fresh(options);
            &&& view.options == options
            &&& view.matches.len() == options.len()
            &&& 0 <= i < options.len() ==> view.matches[i].index == i && view.matches[i].score == 0
                && view.matches[i].len == options[i].filter_text@.len()
            &&& view.cursor == 0
            &&& view.completion_height == 0
            &&& view.line.len() == 0
            &&& view.previous_pattern.len() == 0
            &&& view.truncate_start
            &&& view.show_preview
        }),
{
}

proof fn lemma_ranked_entry(
    sorted: Seq<PickerMatch>,
    matches: Seq<PickerMatch>,
    lens: Seq<usize>,
    k: int,
)
    requires
        ranking::is_ranking_of(sorted, matches),
        ranking::valid_matches(matches, lens),
        0 <= k < sorted.len(),
    ensures
        matches.contains(sorted[k]),
{
    broadcast use vstd::seq_lib::group_to_multiset_ensures;

    assert(sorted.contains(sorted[k]));
    assert(sorted.to_multiset().count(sorted[k]) > 0);
}

/// A list that was matched anew against all options holds exactly the options in whose filter text
/// the pattern occurs, each once. Each carries the length of that text and a score that the matcher
/// gives for it and the pattern, and 0 if the pattern is empty. No entry stands before one that
/// scores higher, or as high with a shorter text.
pub proof fn law_full_list<T, S>(view: PickerView<T, S>, pattern: Seq<char>)
    requires
        view.wf(),
        view.ranks_all(pattern),
    ensures
        forall|k: int|
            0 <= k < view.matches.len() ==> {
                let m = #[trigger] view.matches[k];
                let text = view.options[m.index as int].filter_text@;
                &&& m.index < view.options.len()
                &&& fuzzy_match::occurs_in(text, pattern)
                &&& fuzzy_match::skim_scores(text, pattern).contains(m.score)
                &&& pattern.len() == 0 ==> m.score == 0
                &&& m.len == text.len()
            },
        forall|i: int, j: int|
            0 <= i < j < view.matches.len() ==> {
                let a = #[trigger] view.matches[i];
                let b = #[trigger] view.matches[j];
                &&& a.index != b.index
                &&& a.score >= b.score
                &&& a.score == b.score ==> a.len <= b.len
            },
        forall|i: int|
            0 <= i < view.options.len() && fuzzy_match::occurs_in(
                (#[trigger] view.options[i]).filter_text@,
                pattern,
            ) ==> exists|k: int|
                0 <= k < view.matches.len() && (#[trigger] view.matches[k]).index == i,
{
    let lens = view.filter_lens();
    let scores = choose|scores: Seq<Option<i64>>| #[trigger]
        picker::can_score(view.options, pattern, scores) && ranking::is_ranking_of(
            view.matches,
            ranking::filtered(lens, scores),
        );
    let all = ranking::filtered(lens, scores);
    ranking::law_filtered_lists_the_scored(lens, scores);
    ranking::law_ranking_keeps_matches(view.matches, all, lens);
    assert forall|k: int| 0 <= k < view.matches.len() implies {
        let m = #[trigger] view.matches[k];
        let text = view.options[m.index as int].filter_text@;
        &&& m.index < view.options.len()
        &&& fuzzy_match::occurs_in(text, pattern)
        &&& fuzzy_match::skim_scores(text, pattern).contains(m.score)
        &&& pattern.len() == 0 ==> m.score == 0
        &&& m.len == text.len()
    } by {
        let m = view.matches[k];
        lemma_ranked_entry(view.matches, all, lens, k);
        assert(scores[m.index as int] == Some(m.score));
        assert(view.options[m.index as int].matchable());
    }
    assert forall|i: int|
        0 <= i < view.options.len() && fuzzy_match::occurs_in(
            (#[trigger] view.options[i]).filter_text@,
            pattern,
        ) implies exists|k: int|
        0 <= k < view.matches.len() && (#[trigger] view.matches[k]).index == i by {
        assert(fuzzy_match::can_score(view.options[i].filter_text@, pattern, scores[i]));
        assert(ranking::lists(all, i));
        assert(ranking::lists(view.matches, i));
    }
}

/// A list that was narrowed down holds exactly the entries of the list before in whose option's
/// sort text the pattern occurs, each once. Each keeps its length and carries a score that the
/// matcher gives for that text and the pattern. No entry stands before one that scores higher, or as
/// high with a shorter text.
pub proof fn law_narrowed_list<T, S>(
    before: PickerView<T, S>,
    after: PickerView<T, S>,
    pattern: Seq<char>,
)
    requires
        before.wf(),
        after.ranks_matches_of(before, pattern),
    ensures
        forall|k: int|
            0 <= k < after.matches.len() ==> {
                let m = #[trigger] after.matches[k];
                let text = before.options[m.index as int].sort_text@;
                &&& m.index < before.options.len()
                &&& fuzzy_match::occurs_in(text, pattern)
                &&& fuzzy_match::skim_scores(text, pattern).contains(m.score)
                &&& m.len == before.options[m.index as int].filter_text@.len()
                &&& exists|j: int|
                    0 <= j < before.matches.len() && (#[trigger] before.matches[j]).index == m.index
            },
        forall|i: int, j: int|
            0 <= i < j < after.matches.len() ==> {
                let a = #[trigger] after.matches[i];
                let b = #[trigger] after.matches[j];
                &&& a.index != b.index
                &&& a.score >= b.score
                &&& a.score == b.score ==> a.len <= b.len
            },
        forall|j: int|
            0 <= j < before.matches.len() && fuzzy_match::occurs_in(
                before.options[(#[trigger] before.matches[j]).index as int].sort_text@,
                pattern,
            ) ==> exists|k: int|
                0 <= k < after.matches.len() && (#[trigger] after.matches[k]).index
                    == before.matches[j].index,
{
    let lens = before.filter_lens();
    let scores = choose|scores: Seq<Option<i64>>| #[trigger]
        before.can_rescore(pattern, scores) && ranking::is_ranking_of(
            after.matches,
            ranking::refined(before.matches, scores),
        );
    let kept = ranking::refined(before.matches, scores);
    ranking::law_refined_keeps_the_scored(before.matches, scores, lens);
    ranking::law_ranking_keeps_matches(after.matches, kept, lens);
    assert forall|k: int| 0 <= k < after.matches.len() implies {
        let m = #[trigger] after.matches[k];
        let text = before.options[m.index as int].sort_text@;
        &&& m.index < before.options.len()
        &&& fuzzy_match::occurs_in(text, pattern)
        &&& fuzzy_match::skim_scores(text, pattern).contains(m.score)
        &&& m.len == before.options[m.index as int].filter_text@.len()
        &&& exists|j: int|
            0 <= j < before.matches.len() && (#[trigger] before.matches[j]).index == m.index
    } by {
        let m = after.matches[k];
        lemma_ranked_entry(after.matches, kept, lens, k);
        let j = choose|j: int|
            0 <= j < scores.len() && #[trigger] scores[j] == Some(m.score) && m == (PickerMatch {
                score: m.score,
                ..before.matches[j]
            });
        assert(before.matches[j].index == m.index);
        assert(before.options[m.index as int].matchable());
    }
    assert forall|j: int|
        0 <= j < before.matches.len() && fuzzy_match::occurs_in(
            before.options[(#[trigger] before.matches[j]).index as int].sort_text@,
            pattern,
        ) implies exists|k: int|
        0 <= k < after.matches.len() && (#[trigger] after.matches[k]).index
            == before.matches[j].index by {
        let i = before.matches[j].index as int;
        assert(fuzzy_match::can_score(before.sort_text(i), pattern, scores[j]));
        let again = PickerMatch { score: scores[j].unwrap(), ..before.matches[j] };
        assert(scores[j] == Some(again.score));
        assert(kept.contains(again));
        let l = choose|l: int| 0 <= l < kept.len() && kept[l] == again;
        assert(kept[l].index == i);
        assert(ranking::lists(kept, i));
        assert(ranking::lists(after.matches, i));
    }
}

/// After a new query every entry carries a score that the matcher gives for the text of its option
/// and the query, however long the text: the sort text if the query goes on from the one before,
/// and the filter text otherwise. The entries stand in order, the best first.
pub proof fn law_entries_carry_the_matchers_scores<T, S>(
    before: PickerView<T, S>,
    after: PickerView<T, S>,
    k: int,
    l: int,
)
    requires
        before.wf(),
        after.wf(),
        after.is_scored_from(before),
        before.line != before.previous_pattern,
        before.line.len() > 0,
        0 <= k <= l < after.matches.len(),
    ensures
        after.matches[k].index < before.options.len(),
        ({
            let option = before.options[after.matches[k].index as int];
            let text = if before.previous_pattern.is_prefix_of(before.line) {
                option.sort_text@
            } else {
                option.filter_text@
            };
            &&& fuzzy_match::skim_scores(text, before.line).contains(after.matches[k].score)
            &&& fuzzy_match::occurs_in(text, before.line)
            &&& after.matches[k].len == option.filter_text@.len()
        }),
        after.matches[k].score >= after.matches[l].score,
        after.matches[k].score == after.matches[l].score ==> after.matches[k].len
            <= after.matches[l].len,
        k < l ==> after.matches[k].index != after.matches[l].index,
{
    lemma_prefix(before.line, before.previous_pattern);
    if text::has_prefix(before.line, before.previous_pattern) {
        law_narrowed_list(before, after, before.line);
    } else {
        law_full_list(after, before.line);
    }
    assert(after.matches[k].index < before.options.len());
    assert(after.matches[l].index < before.options.len());
}

proof fn lemma_prefix(line: Seq<char>, pattern: Seq<char>)
    ensures
        text::has_prefix(line, pattern) <==> pattern.is_prefix_of(line),
{
    text::law_prefix_agrees(line, pattern);
    if pattern.len() <= line.len() {
        assert(line.subrange(0, pattern.len() as int) =~= line.take(pattern.len() as int));
    }
}

/// After a new query an option is listed exactly if the query occurs in its text: in its sort text,
/// for an option that was listed, if the query goes on from the one before, and in its filter text
/// otherwise.
pub proof fn law_new_query_lists_what_matches<T, S>(
    before: PickerView<T, S>,
    after: PickerView<T, S>,
    i: int,
)
    requires
        before.wf(),
        after.wf(),
        after.is_scored_from(before),
        before.line != before.previous_pattern,
        before.line.len() > 0,
        0 <= i < before.options.len(),
    ensures
        ({
            let listed = exists|k: int|
                0 <= k < after.matches.len() && (#[trigger] after.matches[k]).index == i;
            let was_listed = exists|k: int|
                0 <= k < before.matches.len() && (#[trigger] before.matches[k]).index == i;
            if before.previous_pattern.is_prefix_of(before.line) {
                listed <==> was_listed && fuzzy_match::occurs_in(
                    before.options[i].sort_text@,
                    before.line,
                )
            } else {
                listed <==> fuzzy_match::occurs_in(before.options[i].filter_text@, before.line)
            }
        }),
{
    lemma_prefix(before.line, before.previous_pattern);
    if text::has_prefix(before.line, before.previous_pattern) {
        law_narrowed_list(before, after, before.line);
        if exists|k: int| 0 <= k < before.matches.len() && (#[trigger] before.matches[k]).index == i {
            let j = choose|k: int|
                0 <= k < before.matches.len() && (#[trigger] before.matches[k]).index == i;
            assert(before.matches[j].index == i);
        }
    } else {
        law_full_list(after, before.line);
        assert(after.options[i] == before.options[i]);
    }
}

/// A new query puts the cursor on the first entry, is remembered, and changes nothing else but the
/// list. An empty one lists every option in its own place; one that is the same changes nothing.
pub proof fn law_new_query_changes_the_list_alone<T, S>(
    before: PickerView<T, S>,
    after: PickerView<T, S>,
    i: int,
)
    requires
        before.wf(),
        after.is_scored_from(before),
    ensures
        after.options == before.options,
        after.line == before.line,
        after.previous_pattern == before.line,
        after.completion_height == before.completion_height,
        after.truncate_start == before.truncate_start,
        after.show_preview == before.show_preview,
        before.line == before.previous_pattern ==> after.cursor == before.cursor && after.matches
            == before.matches,
        before.line != before.previous_pattern ==> after.cursor == 0,
        before.line != before.previous_pattern && before.line.len() == 0 ==> {
            &&& after.matches.len() == before.options.len()
            &&& 0 <= i < before.options.len() ==> after.matches[i].index == i
                && after.matches[i].score == 0 && after.matches[i].len
                == before.options[i].filter_text@.len()
        },
{
    if 0 <= i < before.options.len() {
        assert(before.options[i].matchable());
    }
}

} // verus!
