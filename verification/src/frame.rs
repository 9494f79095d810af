//! What a picker draws, and where.

use vstd::prelude::*;

use crate::fuzzy_match;
use crate::graphics;
use crate::graphics::Rect;
use crate::item;
use crate::item::Span;

verus! {

/// The style of a character of a label, before the style of its span is laid over it.
#[derive(Clone, Copy, PartialEq, Eq, Structural, Debug)]
pub enum TextStyle {
    /// The character matches the query.
    Highlighted,
    /// The character is on the row of the cursor.
    Selected,
    Plain,
}

/// One row of the list.
pub struct RowFrame<'a, S> {
    /// The option on this row, by its position in the list of options.
    pub option: usize,
    pub area: Rect,
    /// Whether the cursor is on this row.
    pub is_active: bool,
    pub label: &'a Vec<Span<S>>,
    /// The positions of the characters of the label that match the query.
    pub highlights: Vec<usize>,
}

/// A row, as a value.
pub struct RowView<S> {
    pub option: usize,
    pub area: Rect,
    pub is_active: bool,
    pub label: Seq<(Seq<char>, S)>,
    pub highlights: Seq<usize>,
}

impl<'a, S> View for RowFrame<'a, S> {
    type V = RowView<S>;

    open spec fn view(&self) -> RowView<S> {
        RowView {
            option: self.option,
            area: self.area,
            is_active: self.is_active,
            label: item::spans_view(self.label@),
            highlights: self.highlights@,
        }
    }
}

/// The positions that a match found, or none if there is no match.
pub open spec fn highlights(found: Option<(i64, Seq<usize>)>) -> Seq<usize> {
    match found {
        Some((_, at)) => at,
        None => seq![],
    }
}

impl<'a, S> RowFrame<'a, S> {
    /// A row for an option. `found` is what matching the query against the label found.
    pub fn new(
        option: usize,
        area: Rect,
        is_active: bool,
        label: &'a Vec<Span<S>>,
        found: Option<(i64, Vec<usize>)>,
    ) -> (row: RowFrame<'a, S>)
        ensures
            row@ == (RowView {
                option,
                area,
                is_active,
                label: item::spans_view(label@),
                highlights: highlights(fuzzy_match::found_view(found)),
            }),
            row.option == option,
            row.area == area,
            row.is_active == is_active,
            row.label == label,
            match found {
                Some((_, at)) => row.highlights@ == at@,
                None => row.highlights@.len() == 0,
            },
    {
        let highlights = match found {
            Some((_, at)) => at,
            None => Vec::new(),
        };
        RowFrame { option, area, is_active, label, highlights }
    }

    /// The style of the character at position `at`.
    pub fn style_at(&self, at: usize) -> (style: TextStyle)
        ensures
            style == (if self.highlights@.contains(at) {
                TextStyle::Highlighted
            } else if self.is_active {
                TextStyle::Selected
            } else {
                TextStyle::Plain
            }),
    {
        let mut i: usize = 0;
        while i < self.highlights.len()
            invariant
                i <= self.highlights.len(),
                forall|k: int| 0 <= k < i ==> self.highlights@[k] != at,
            decreases self.highlights.len() - i,
        {
            if self.highlights[i] == at {
                return TextStyle::Highlighted;
            }
            i = i + 1;
        }
        if self.is_active {
            TextStyle::Selected
        } else {
            TextStyle::Plain
        }
    }
}

/// What is left of a row after a span was drawn up to column `new_x`.
pub fn after_span(row: Rect, new_x: u16) -> (rest: Rect)
    requires
        row.fits(),
        row.x <= new_x,
    ensures
        rest == row.without_left(new_x - row.x),
        rest.fits(),
{
    row.clip_left(new_x - row.x)
}

/// All that a picker draws inside `area`.
pub struct PickerFrame<'a, S> {
    /// The area to clear and to draw a border around.
    pub area: Rect,
    /// How many of the options match.
    pub count: String,
    pub count_x: u16,
    pub count_y: u16,
    /// How many columns the count may take.
    pub count_width: usize,
    /// The area of the prompt.
    pub prompt: Rect,
    /// The row of the line below the prompt, its first column and the one after its last.
    pub separator_y: u16,
    pub separator_start: u16,
    pub separator_end: u16,
    /// The column of the marker before the row of the cursor.
    pub marker_x: u16,
    /// Whether labels that are too long lose their start.
    pub truncate_start: bool,
    pub rows: Vec<RowFrame<'a, S>>,
}

/// A frame, as a value.
pub struct FrameView<S> {
    pub area: Rect,
    pub count: Seq<char>,
    pub count_x: int,
    pub count_y: int,
    pub count_width: int,
    pub prompt: Rect,
    pub separator_y: int,
    pub separator_start: int,
    pub separator_end: int,
    pub marker_x: int,
    pub truncate_start: bool,
    pub rows: Seq<RowView<S>>,
}

impl<'a, S> View for PickerFrame<'a, S> {
    type V = FrameView<S>;

    open spec fn view(&self) -> FrameView<S> {
        FrameView {
            area: self.area,
            count: self.count@,
            count_x: self.count_x as int,
            count_y: self.count_y as int,
            count_width: self.count_width as int,
            prompt: self.prompt,
            separator_y: self.separator_y as int,
            separator_start: self.separator_start as int,
            separator_end: self.separator_end as int,
            marker_x: self.marker_x as int,
            truncate_start: self.truncate_start,
            rows: self.rows@.map_values(|row: RowFrame<'a, S>| row@),
        }
    }
}

/// The prompt: the first row inside the border, but for its first column.
pub open spec fn prompt_area(area: Rect) -> Rect {
    Rect { height: 1, ..area.within_border().without_left(1) }
}

/// The list: what is inside the border below the prompt and the line under it, with three columns
/// left free for the marker of the current row.
pub open spec fn list_area(area: Rect) -> Rect {
    area.within_border().without_top(2).without_left(3)
}

/// A picker can be drawn in the area: its columns and rows have numbers, and so has the row below
/// the prompt.
pub open spec fn drawable(area: Rect) -> bool {
    area.fits() && area.within_border().y < u16::MAX
}

/// The first entry on the page that an entry is on, with pages of `rows` entries.
pub open spec fn page_start(entry: int, rows: int) -> int {
    entry - entry % graphics::max_int(rows, 1)
}

/// The area of the prompt.
pub fn prompt_area_in(area: Rect) -> (prompt: Rect)
    requires
        area.fits(),
    ensures
        prompt == prompt_area(area),
{
    area.inside_border().clip_left(1).with_height(1)
}

/// The area of the list.
pub fn list_area_in(area: Rect) -> (list: Rect)
    requires
        area.fits(),
    ensures
        list == list_area(area),
        list.fits(),
{
    area.inside_border().clip_top(2).clip_left(3)
}

/// Whether a picker can be drawn in the area.
pub fn is_drawable(area: Rect) -> (can: bool)
    ensures
        can == drawable(area),
{
    area.x <= u16::MAX - area.width && area.y <= u16::MAX - area.height && area.inside_border().y
        < u16::MAX
}

/// The first entry on the page that an entry is on.
pub fn page_start_of(entry: usize, rows: u16) -> (start: usize)
    ensures
        start == page_start(entry as int, rows as int),
        start <= entry,
{
    let height: usize = if rows == 0 {
        1
    } else {
        rows as usize
    };
    let over: usize = entry % height;
    proof {
        vstd::arithmetic::div_mod::lemma_mod_decreases(entry as nat, height as nat);
    }
    entry - over
}

/// An entry is on the page that starts at `page_start`: it is one of the `rows` entries from there
/// on, and pages start at multiples of their height.
pub proof fn law_page_holds_the_entry(entry: int, rows: int)
    requires
        0 <= entry,
        1 <= rows,
    ensures
        0 <= page_start(entry, rows) <= entry < page_start(entry, rows) + rows,
        page_start(entry, rows) % rows == 0,
{
    vstd::arithmetic::div_mod::lemma_mod_decreases(entry as nat, rows as nat);
    vstd::arithmetic::div_mod::lemma_fundamental_div_mod(entry, rows);
    vstd::arithmetic::div_mod::lemma_mod_multiples_basic(entry / rows, rows);
    assert(page_start(entry, rows) == (entry / rows) * rows) by (nonlinear_arith)
        requires
            entry == rows * (entry / rows) + entry % rows,
            page_start(entry, rows) == entry - entry % rows,
    ;
}

/// The list has four rows less than the area: two are the border, one the prompt and one the line
/// under it.
pub proof fn law_list_height(area: Rect)
    ensures
        list_area(area).height == graphics::max_int(area.height - 4, 0),
{
}

/// The list lies inside the border, below the prompt and the line under it.
pub proof fn law_list_lies_inside(area: Rect)
    requires
        area.fits(),
    ensures
        area.encloses(list_area(area)),
        forall|x: int, y: int| #[trigger]
            list_area(area).has_cell(x, y) ==> area.x < x < area.end_col() - 1 && area.y + 2 < y
                < area.end_row() - 1 && !prompt_area(area).has_cell(x, y),
{
}

/// All positions that were found are highlighted, and nothing else.
pub proof fn law_all_that_was_found_is_highlighted(score: i64, at: Seq<usize>)
    ensures
        highlights(Some((score, at))) == at,
        highlights(None) == Seq::<usize>::empty(),
{
}

/// The prompt is one row high. It begins one cell right of and below the top left cell of the area,
/// inside the border, and one more column to the right; where the border leaves no room it has no
/// columns.
pub proof fn law_place_of_the_prompt(area: Rect)
    requires
        area.fits(),
    ensures
        prompt_area(area).height == 1,
        prompt_area(area).y == (if area.height == 0 {
            area.y as int
        } else {
            area.y + 1
        }),
        area.width >= 3 ==> prompt_area(area).x == area.x + 2 && prompt_area(area).width
            == area.width - 3,
        area.width == 0 ==> prompt_area(area).x == area.x && prompt_area(area).width == 0,
        1 <= area.width <= 2 ==> prompt_area(area).x == area.x + 1 && prompt_area(area).width == 0,
{
}

/// The list begins three rows and four columns into the area, and leaves a row and a column of the
/// border free at the end.
pub proof fn law_place_of_the_list(area: Rect)
    requires
        area.fits(),
    ensures
        area.width >= 5 ==> list_area(area).x == area.x + 4 && list_area(area).width == area.width
            - 5,
        2 <= area.width < 5 ==> list_area(area).x == area.x + area.width - 1 && list_area(
            area,
        ).width == 0,
        area.width == 1 ==> list_area(area).x == area.x + 1 && list_area(area).width == 0,
        area.width == 0 ==> list_area(area).x == area.x && list_area(area).width == 0,
        area.height >= 4 ==> list_area(area).y == area.y + 3 && list_area(area).height
            == area.height - 4,
        area.height < 4 ==> list_area(area).height == 0,
{
}

/// Without rows every entry is a page of its own.
pub proof fn law_pages_without_rows(entry: int)
    requires
        0 <= entry,
    ensures
        page_start(entry, 0) == entry,
{
}

/// A picker can be drawn in an area exactly if the cells of the area, those next to it and those
/// below the prompt have numbers of sixteen bits.
pub proof fn law_what_areas_can_be_drawn_in(area: Rect)
    ensures
        drawable(area) <==> area.x + area.width <= 65535 && area.y + area.height <= 65535 && (
        area.height > 0 || area.y < 65535) && (area.height == 0 || area.y + 1 < 65535),
{
}

/// A row is seen as it is.
pub proof fn law_row_is_seen_as_it_is<S>(row: RowFrame<'_, S>)
    ensures
        row@.option == row.option,
        row@.area == row.area,
        row@.is_active == row.is_active,
        row@.label == item::spans_view(row.label@),
        row@.highlights == row.highlights@,
{
}

/// A frame is seen as it is.
pub proof fn law_frame_is_seen_as_it_is<S>(frame: PickerFrame<'_, S>, k: int)
    ensures
        frame@.area == frame.area,
        frame@.count == frame.count@,
        frame@.count_x == frame.count_x,
        frame@.count_y == frame.count_y,
        frame@.count_width == frame.count_width,
        frame@.prompt == frame.prompt,
        frame@.separator_y == frame.separator_y,
        frame@.separator_start == frame.separator_start,
        frame@.separator_end == frame.separator_end,
        frame@.marker_x == frame.marker_x,
        frame@.truncate_start == frame.truncate_start,
        frame@.rows.len() == frame.rows@.len(),
        0 <= k < frame.rows@.len() ==> frame@.rows[k] == frame.rows@[k]@,
{
}

} // verus!
