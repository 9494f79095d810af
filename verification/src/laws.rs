//! What holds of a picker in every state.

use vstd::prelude::*;

use crate::frame;
use crate::frame::FrameView;
use crate::fuzzy_match;
use crate::graphics;
use crate::graphics::Rect;
use crate::input::{Binding, Direction};
use crate::item;
use crate::movement;
use crate::picker;
use crate::picker::PickerView;
use crate::ranking;
use crate::text;

verus! {

/// The cursor is on an entry, or on the first place of an empty list.
pub open spec fn cursor_in_list<T, S>(view: PickerView<T, S>) -> bool {
    0 <= view.cursor && (view.cursor < view.matches.len() || view.cursor == 0)
}

/// A key press leaves a sound state sound, and the options, the matches and the prompt as they
/// are; a list that was complete for a pattern stays so.
pub proof fn law_keys_keep_the_list<T, S>(view: PickerView<T, S>, binding: Binding)
    requires
        view.wf(),
    ensures
        view.after_binding(binding).wf(),
        view.after_binding(binding).options == view.options,
        view.after_binding(binding).matches == view.matches,
        view.after_binding(binding).line == view.line,
        view.after_binding(binding).previous_pattern == view.previous_pattern,
        forall|pattern: Seq<char>|
            view.lists_matches_of(pattern) ==> #[trigger] view.after_binding(
                binding,
            ).lists_matches_of(pattern),
{
    assert(0 <= view.after_binding(binding).cursor) by {
        if view.matches.len() > 0 {
            match binding {
                Binding::Step(direction) => movement::law_move_stays_in_list(
                    view.cursor,
                    view.matches.len() as int,
                    1,
                    direction,
                ),
                Binding::PageUp => movement::law_move_stays_in_list(
                    view.cursor,
                    view.matches.len() as int,
                    view.completion_height,
                    Direction::Forward,
                ),
                Binding::PageDown => movement::law_move_stays_in_list(
                    view.cursor,
                    view.matches.len() as int,
                    view.completion_height,
                    Direction::Backward,
                ),
                _ => {},
            }
        }
    }
}

/// A key press keeps the cursor in the list.
pub proof fn law_keys_keep_the_cursor_in_the_list<T, S>(view: PickerView<T, S>, binding: Binding)
    requires
        view.wf(),
        cursor_in_list(view),
    ensures
        cursor_in_list(view.after_binding(binding)),
{
    law_keys_keep_the_list(view, binding);
    if view.matches.len() > 0 {
        match binding {
            Binding::Step(direction) => movement::law_move_stays_in_list(
                view.cursor,
                view.matches.len() as int,
                1,
                direction,
            ),
            Binding::PageUp => movement::law_move_stays_in_list(
                view.cursor,
                view.matches.len() as int,
                view.completion_height,
                Direction::Forward,
            ),
            Binding::PageDown => movement::law_move_stays_in_list(
                view.cursor,
                view.matches.len() as int,
                view.completion_height,
                Direction::Backward,
            ),
            _ => {},
        }
    }
}

/// Bringing the list up to date keeps the cursor in the list, if it was there.
pub proof fn law_scoring_keeps_the_cursor_in_the_list<T, S>(
    before: PickerView<T, S>,
    after: PickerView<T, S>,
)
    requires
        cursor_in_list(before),
        after.is_scored_from(before),
    ensures
        cursor_in_list(after),
{
}

/// Showing or hiding the preview twice changes nothing.
pub proof fn law_toggling_twice_changes_nothing<T, S>(view: PickerView<T, S>)
    ensures
        view.after_binding(Binding::TogglePreview).after_binding(Binding::TogglePreview) == view,
{
}

/// Bringing the list up to date twice is the same as once.
pub proof fn law_scoring_twice_changes_nothing<T, S>(
    before: PickerView<T, S>,
    once: PickerView<T, S>,
    twice: PickerView<T, S>,
)
    requires
        once.is_scored_from(before),
        twice.is_scored_from(once),
    ensures
        twice == once,
{
}

/// After a new query the selection is the best match: none scores higher, and none of those that
/// score as high has a shorter text.
pub proof fn law_selection_is_the_best_match<T, S>(
    before: PickerView<T, S>,
    after: PickerView<T, S>,
    i: int,
)
    requires
        after.is_scored_from(before),
        before.line != before.previous_pattern,
        before.line.len() > 0,
        0 <= i < after.matches.len(),
    ensures
        after.selected() == Some(after.matches[0].index),
        after.matches[0].ranks_before(after.matches[i]),
{
    ranking::law_first_is_best(after.matches, i);
}

/// Narrowing the list down gives a ranking that matching all options anew can give, for options
/// whose filter and sort texts agree and a list that was complete for the pattern matched last.
pub proof fn law_narrowing_is_rescoring<T, S>(before: PickerView<T, S>, after: PickerView<T, S>)
    requires
        before.wf(),
        before.texts_agree(),
        before.lists_matches_of(before.previous_pattern),
        before.line != before.previous_pattern,
        before.line.len() > 0,
        text::has_prefix(before.line, before.previous_pattern),
        after.is_scored_from(before),
    ensures
        after.ranks_all(before.line),
{
    let again = choose|scores: Seq<Option<i64>>| #[trigger]
        before.can_rescore(before.line, scores) && ranking::is_ranking_of(
            after.matches,
            ranking::refined(before.matches, scores),
        );
    let scores = Seq::new(
        before.options.len(),
        |i: int|
            if ranking::lists(before.matches, i) {
                again[choose|k: int|
                    0 <= k < before.matches.len() && (#[trigger] before.matches[k]).index == i]
            } else {
                None
            },
    );
    assert forall|k: int| 0 <= k < before.matches.len() implies #[trigger] again[k]
        == ranking::scores_of_matches(before.matches, scores)[k] by {
        let i = before.matches[k].index as int;
        assert(i < before.filter_lens().len());
        assert(ranking::lists(before.matches, i));
        let j = choose|j: int|
            0 <= j < before.matches.len() && (#[trigger] before.matches[j]).index == i;
        assert(j == k);
    }
    assert(again =~= ranking::scores_of_matches(before.matches, scores));
    assert forall|i: int| 0 <= i < scores.len() implies fuzzy_match::can_score(
        after.filter_text(i),
        before.line,
        #[trigger] scores[i],
    ) by {
        assert(before.filter_text(i) == before.sort_text(i));
        if ranking::lists(before.matches, i) {
            let k = choose|k: int|
                0 <= k < before.matches.len() && (#[trigger] before.matches[k]).index == i;
            assert(fuzzy_match::can_score(before.sort_text(i), before.line, again[k]));
        } else if fuzzy_match::occurs_in(before.filter_text(i), before.line) {
            fuzzy_match::law_longer_patterns_match_less(
                before.filter_text(i),
                before.line,
                before.previous_pattern,
            );
        }
    }
    assert(picker::can_score(after.options, before.line, scores));
    ranking::law_refining_is_rescoring(
        before.matches,
        before.filter_lens(),
        scores,
        after.matches,
    );
}

/// The row that is marked as active, if any, shows the selection, and it is the only one; there is
/// one whenever the cursor is on an entry and the list has room for a row.
pub proof fn law_active_row_shows_the_selection<T, S>(
    view: PickerView<T, S>,
    area: Rect,
    frame: FrameView<S>,
)
    requires
        view.wf(),
        view.is_frame(area, frame),
    ensures
        forall|k: int|
            0 <= k < frame.rows.len() ==> ((#[trigger] frame.rows[k]).is_active <==> k
                == view.cursor - view.first_shown(area)),
        forall|k: int|
            0 <= k < frame.rows.len() && (#[trigger] frame.rows[k]).is_active ==> view.selected()
                == Some(frame.rows[k].option),
        view.cursor < view.matches.len() && frame::list_area(area).height > 0 ==> 0 <= view.cursor
            - view.first_shown(area) < frame.rows.len(),
{
    if frame::list_area(area).height > 0 {
        frame::law_page_holds_the_entry(view.cursor, frame::list_area(area).height as int);
    }
    assert forall|k: int| 0 <= k < frame.rows.len() implies view.is_row(
        area,
        k,
        #[trigger] frame.rows[k],
    ) by {}
}

/// The rows lie one below the other in the area of the list.
pub proof fn law_rows_lie_in_the_list<T, S>(
    view: PickerView<T, S>,
    area: Rect,
    frame: FrameView<S>,
    k: int,
)
    requires
        area.fits(),
        view.is_frame(area, frame),
        0 <= k < frame.rows.len(),
    ensures
        frame.rows[k].area.y == frame::list_area(area).y + k,
        frame::list_area(area).encloses(frame.rows[k].area),
{
    assert(view.is_row(area, k, frame.rows[k]));
}

/// What is highlighted on a row are characters of its label, in their order.
pub proof fn law_highlights_lie_in_the_label<T, S>(
    view: PickerView<T, S>,
    area: Rect,
    frame: FrameView<S>,
    k: int,
)
    requires
        view.is_frame(area, frame),
        0 <= k < frame.rows.len(),
    ensures
        fuzzy_match::positions_within(
            frame.rows[k].highlights,
            item::label_text(frame.rows[k].label).len(),
        ),
{
    assert(view.is_row(area, k, frame.rows[k]));
}

/// While the prompt is empty nothing is highlighted.
pub proof fn law_empty_prompt_highlights_nothing<T, S>(
    view: PickerView<T, S>,
    area: Rect,
    frame: FrameView<S>,
    k: int,
)
    requires
        view.line.len() == 0,
        view.is_frame(area, frame),
        0 <= k < frame.rows.len(),
    ensures
        frame.rows[k].highlights == Seq::<usize>::empty(),
{
    assert(view.is_row(area, k, frame.rows[k]));
}

/// A page moved is as long as a page shown: a picker that was given the height of the area moves by
/// as many entries as the list has rows, and shows that many, or as many as are left.
pub proof fn law_page_moved_is_page_shown<T, S>(
    before: PickerView<T, S>,
    width: u16,
    area: Rect,
    frame: FrameView<S>,
)
    requires
        before.after_size((width, area.height)).is_frame(area, frame),
    ensures
        ({
            let view = before.after_size((width, area.height));
            &&& frame::list_area(area).height == view.completion_height
            &&& frame.rows.len() == graphics::max_int(
                graphics::min_int(
                    view.completion_height,
                    view.matches.len() - view.first_shown(area),
                ),
                0,
            )
            &&& view.after_binding(Binding::PageUp) == view.after_move(
                frame::list_area(area).height as int,
                Direction::Forward,
            )
            &&& view.after_binding(Binding::PageDown) == view.after_move(
                frame::list_area(area).height as int,
                Direction::Backward,
            )
        }),
{
    frame::law_list_height(area);
}

/// A move by no more entries than the list has and one by as many the other way cancel, and a move
/// by as many entries as the list has changes nothing. The list takes at most half of the numbers
/// of a machine word, as any list in memory does.
pub proof fn law_opposite_moves_cancel<T, S>(
    view: PickerView<T, S>,
    amount: int,
    direction: Direction,
)
    requires
        0 <= view.cursor < view.matches.len(),
        0 <= amount <= view.matches.len(),
        2 * view.matches.len() <= usize::MAX,
    ensures
        view.after_move(amount, Direction::Forward).after_move(amount, Direction::Backward) == view,
        view.after_move(amount, Direction::Backward).after_move(amount, Direction::Forward) == view,
        view.after_move(view.matches.len() as int, direction) == view,
{
    let len = view.matches.len() as int;
    movement::law_backward_undoes_forward(view.cursor, len, amount);
    movement::law_move_stays_in_list(view.cursor, len, amount, Direction::Backward);
    movement::law_forward_undoes_backward(view.cursor, len, amount);
    movement::law_pages_go_round(view.cursor, len, len);
}

} // verus!
