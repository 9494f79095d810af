//! What is drawn of a picker.

use vstd::prelude::*;

use crate::frame;
use crate::frame::FrameView;
use crate::fuzzy_match;
use crate::graphics::Rect;
use crate::item;
use crate::picker::PickerView;
use crate::text;

verus! {

/// The rows show the page of the list that the cursor is on, with as many entries as the area has
/// rows less four, one entry to a row in their order: the entry's option, its label, and whether
/// the cursor is on it. Each row begins four columns into the area, and the first three rows below
/// its top.
pub proof fn law_rows_show_the_page_of_the_cursor<T, S>(
    view: PickerView<T, S>,
    area: Rect,
    frame: FrameView<S>,
    k: int,
)
    requires
        view.wf(),
        area.fits(),
        view.is_frame(area, frame),
    ensures
        area.height <= 4 ==> frame.rows.len() == 0,
        area.height > 4 ==> ({
            let height = area.height - 4;
            let first = view.cursor / height * height;
            let left = view.matches.len() - first;
            &&& left >= height ==> frame.rows.len() == height
            &&& 0 <= left < height ==> frame.rows.len() == left
            &&& left < 0 ==> frame.rows.len() == 0
            &&& 0 <= k < frame.rows.len() ==> {
                let row = frame.rows[k];
                &&& row.option == view.matches[first + k].index
                &&& row.is_active <==> first + k == view.cursor
                &&& row.label == item::spans_view(view.options[row.option as int].label@)
                &&& row.area.height == 1
                &&& row.area.y == area.y + 3 + k
                &&& area.width >= 5 ==> row.area.x == area.x + 4 && row.area.width == area.width - 5
                &&& area.width < 5 ==> row.area.width == 0
            }
        }),
{
    if area.height > 4 {
        let height = area.height - 4;
        frame::law_place_of_the_list(area);
        vstd::arithmetic::div_mod::lemma_fundamental_div_mod(view.cursor, height);
        assert(view.cursor / height * height == view.first_shown(area)) by (nonlinear_arith)
            requires
                view.cursor == height * (view.cursor / height) + view.cursor % height,
                view.first_shown(area) == view.cursor - view.cursor % height,
        ;
        if 0 <= k < frame.rows.len() {
            assert(view.is_row(area, k, frame.rows[k]));
        }
    }
}

/// A row highlights all positions that the matcher found for its label and the prompt's line, and
/// none if the line does not occur in the label. In a label of up to 1024 characters there are as
/// many as the line has characters, and each is that of a character that matches the character of
/// the line with the same number.
pub proof fn law_row_highlights_the_whole_match<T, S>(
    view: PickerView<T, S>,
    area: Rect,
    frame: FrameView<S>,
    k: int,
    i: int,
)
    requires
        view.is_frame(area, frame),
        0 <= k < frame.rows.len(),
    ensures
        ({
            let label = item::label_text(frame.rows[k].label);
            let at = frame.rows[k].highlights;
            let found = fuzzy_match::occurs_in(label, view.line);
            &&& found ==> exists|score: i64| #[trigger]
                fuzzy_match::skim_finds(label, view.line).contains((score, at))
            &&& !found ==> at.len() == 0
            &&& found && label.len() <= 1024 ==> at.len() == view.line.len()
            &&& found && label.len() <= 1024 && 0 <= i < at.len() ==> at[i] < label.len()
                && fuzzy_match::chars_match(
                label[at[i] as int],
                view.line[i],
                fuzzy_match::case_sensitive(view.line),
            )
        }),
{
    assert(view.is_row(area, k, frame.rows[k]));
    let label = item::label_text(frame.rows[k].label);
    let found = choose|found: Option<(i64, Seq<usize>)>| #[trigger]
        fuzzy_match::can_find(view.shown_text(area, k), view.line, found) && frame.rows[k]
            == view.row(area, k, found);
    assert(label == view.shown_text(area, k));
    if let Some((score, at)) = found {
        assert(fuzzy_match::skim_finds(label, view.line).contains((score, frame.rows[k].highlights)));
        if label.len() <= 1024 {
            let ints = fuzzy_match::as_ints(at);
            assert(ints.len() == at.len());
            if 0 <= i < at.len() {
                assert(ints[i] == at[i]);
            }
        }
    }
}

/// The prompt is in the first row inside the border, a line is drawn below it from border to
/// border, and the marker of the active row stands three columns before the list. How many of the
/// options match is written at the end of the prompt's row, as far as there is room.
pub proof fn law_layout_of_the_frame<T, S>(view: PickerView<T, S>, area: Rect, frame: FrameView<S>)
    requires
        area.fits(),
        view.is_frame(area, frame),
    ensures
        frame.area == area,
        frame.truncate_start == view.truncate_start,
        frame.prompt.height == 1,
        area.height > 0 ==> frame.prompt.y == area.y + 1 && frame.separator_y == area.y + 2,
        area.height == 0 ==> frame.prompt.y == area.y && frame.separator_y == area.y + 1,
        area.width >= 3 ==> frame.prompt.x == area.x + 2 && frame.prompt.width == area.width - 3,
        area.width < 3 ==> frame.prompt.width == 0,
        area.width >= 2 ==> frame.separator_start == area.x + 1 && frame.separator_end == area.x
            + area.width - 1,
        area.width < 2 ==> frame.separator_start == frame.separator_end,
        area.width >= 5 ==> frame.marker_x == area.x + 1,
        exists|slash: int|
            0 < slash < frame.count.len() - 1 && #[trigger] frame.count[slash] == '/'
                && text::number_of(frame.count.take(slash)) == view.matches.len()
                && text::number_of(frame.count.skip(slash + 1)) == view.options.len(),
        frame.count_y == frame.prompt.y,
        frame.count.len() <= frame.prompt.width ==> frame.count_width == frame.count.len(),
        frame.count.len() > frame.prompt.width ==> frame.count_width == frame.prompt.width,
        frame.prompt.x + frame.prompt.width > frame.count.len() ==> frame.count_x
            + frame.count.len() + 1 == frame.prompt.x + frame.prompt.width,
        frame.prompt.x + frame.prompt.width <= frame.count.len() ==> frame.count_x == 0,
{
    frame::law_place_of_the_prompt(area);
    frame::law_place_of_the_list(area);
    let count = text::ratio(view.matches.len(), view.options.len());
    text::law_ratio_shows_both_numbers(view.matches.len(), view.options.len());
    let slash = choose|slash: int|
        0 < slash < count.len() - 1 && #[trigger] count[slash] == '/' && text::number_of(
            count.take(slash),
        ) == view.matches.len() && text::number_of(count.skip(slash + 1)) == view.options.len();
    assert(frame.count[slash] == '/');
}

/// A picker with labels and a prompt of up to 1024 characters can be drawn in every area that has
/// room on a screen of sixteen-bit cells.
pub proof fn law_ordinary_pickers_can_be_drawn<T, S>(view: PickerView<T, S>, area: Rect)
    requires
        view.wf(),
        area.x + area.width <= 65535,
        area.y + area.height < 65535,
        view.line.len() <= 1024,
        forall|i: int|
            0 <= i < view.options.len() ==> item::label_text(
                (#[trigger] view.options[i]).label_view(),
            ).len() <= 1024,
    ensures
        view.can_render(area),
{
    assert forall|k: int| 0 <= k < view.shown_len(area) implies fuzzy_match::fits_matrix(
        view.line.len(),
        (#[trigger] view.shown_text(area, k)).len(),
    ) by {
        if frame::list_area(area).height > 0 {
            frame::law_page_holds_the_entry(view.cursor, frame::list_area(area).height as int);
        }
        let entry = view.first_shown(area) + k;
        let index = view.matches[entry].index;
        assert(index < view.filter_lens().len());
        assert(item::label_text(view.options[index as int].label_view()).len() <= 1024);
        fuzzy_match::law_short_texts_can_be_matched(
            view.line.len(),
            view.shown_text(area, k).len(),
        );
    }
    frame::law_what_areas_can_be_drawn_in(area);
}

} // verus!
