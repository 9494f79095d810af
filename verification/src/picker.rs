//! A list of options that is narrowed down by a query.

use vstd::prelude::*;

use crate::frame;
use crate::frame::{FrameView, PickerFrame, RowFrame, RowView};
use crate::fuzzy_match;
use crate::fuzzy_match::{FuzzyQuery, Matcher};
use crate::graphics;
use crate::graphics::Rect;
use crate::input;
use crate::input::{Binding, Command, Direction, Event, Outcome};
use crate::item;
use crate::item::{Item, Span};
use crate::movement;
use crate::ranking;
use crate::ranking::PickerMatch;
use crate::text;

verus! {

/// A picker: its options, the query in its prompt, the options that match the query, and a cursor
/// among these.
pub struct Picker<T, S> {
    options: Vec<Item<T, S>>,
    matcher: Matcher,
    matches: Vec<PickerMatch>,
    /// Current height of the list of matches.
    completion_height: u16,
    cursor: usize,
    /// The line in the prompt.
    line: String,
    previous_pattern: String,
    /// Whether to truncate the start (default true).
    pub truncate_start: bool,
    /// Whether to show the preview panel (default true).
    show_preview: bool,
}

/// The state of a picker. Its matcher is no part of it: what the matcher can find is a matter of
/// text and pattern, whatever it has matched before.
#[verifier::ext_equal]
pub struct PickerView<T, S> {
    pub options: Seq<Item<T, S>>,
    pub matches: Seq<PickerMatch>,
    pub completion_height: int,
    pub cursor: int,
    pub line: Seq<char>,
    pub previous_pattern: Seq<char>,
    pub truncate_start: bool,
    pub show_preview: bool,
}

/// The lengths of the filter texts of `options`.
pub open spec fn lens_of<T, S>(options: Seq<Item<T, S>>) -> Seq<usize> {
    Seq::new(options.len(), |i: int| options[i].filter_text@.len() as usize)
}

/// Matching `pattern` against all of `options`, by their filter texts, can give these scores.
pub open spec fn can_score<T, S>(
    options: Seq<Item<T, S>>,
    pattern: Seq<char>,
    scores: Seq<Option<i64>>,
) -> bool {
    &&& scores.len() == options.len()
    &&& forall|i: int|
        0 <= i < scores.len() ==> fuzzy_match::can_score(
            options[i].filter_text@,
            pattern,
            #[trigger] scores[i],
        )
}

impl<T, S> PickerView<T, S> {
    /// The filter text of option `i`.
    pub open spec fn filter_text(self, i: int) -> Seq<char> {
        self.options[i].filter_text@
    }

    /// The sort text of option `i`.
    pub open spec fn sort_text(self, i: int) -> Seq<char> {
        self.options[i].sort_text@
    }

    /// The lengths of the options' filter texts.
    pub open spec fn filter_lens(self) -> Seq<usize> {
        lens_of(self.options)
    }

    /// Matching `pattern` against the matches, by their options' sort texts, can give these scores.
    pub open spec fn can_rescore(self, pattern: Seq<char>, scores: Seq<Option<i64>>) -> bool {
        &&& scores.len() == self.matches.len()
        &&& forall|k: int|
            0 <= k < scores.len() ==> fuzzy_match::can_score(
                self.sort_text(self.matches[k].index as int),
                pattern,
                #[trigger] scores[k],
            )
    }

    /// The list is a ranking of the options that match `pattern`, by scores that matching all
    /// options can give.
    pub open spec fn ranks_all(self, pattern: Seq<char>) -> bool {
        exists|scores: Seq<Option<i64>>| #[trigger]
            can_score(self.options, pattern, scores) && ranking::is_ranking_of(
                self.matches,
                ranking::filtered(self.filter_lens(), scores),
            )
    }

    /// The list is a ranking of the matches of `before` that match `pattern` as well, by scores
    /// that matching these can give.
    pub open spec fn ranks_matches_of(self, before: PickerView<T, S>, pattern: Seq<char>) -> bool {
        exists|scores: Seq<Option<i64>>| #[trigger]
            before.can_rescore(pattern, scores) && ranking::is_ranking_of(
                self.matches,
                ranking::refined(before.matches, scores),
            )
    }

    /// The state of a new picker: an empty prompt, and all options in the list.
    pub open spec fn fresh(options: Seq<Item<T, S>>) -> PickerView<T, S> {
        PickerView {
            options,
            matches: ranking::unfiltered(lens_of(options)),
            completion_height: 0,
            cursor: 0,
            line: seq![],
            previous_pattern: seq![],
            truncate_start: true,
            show_preview: true,
        }
    }

    /// The state is sound: the texts of all options can be matched, and every match is that of an
    /// option of its own.
    pub open spec fn wf(self) -> bool {
        &&& self.options.len() <= usize::MAX
        &&& self.cursor >= 0
        &&& forall|i: int|
            0 <= i < self.options.len() ==> (#[trigger] self.options[i]).matchable()
        &&& ranking::valid_matches(self.matches, self.filter_lens())
    }

    /// The list shows exactly the options in which `pattern` occurs.
    pub open spec fn lists_matches_of(self, pattern: Seq<char>) -> bool {
        forall|i: int|
            0 <= i < self.options.len() ==> (#[trigger] ranking::lists(self.matches, i)
                <==> fuzzy_match::occurs_in(self.filter_text(i), pattern))
    }

    /// This is the state that bringing the list up to date makes of the state `before`. Nothing
    /// changes while the prompt is the same. An empty prompt lists every option; one that goes on
    /// from the pattern matched last narrows the list down; any other is matched against all
    /// options.
    pub open spec fn is_scored_from(self, before: PickerView<T, S>) -> bool {
        if before.line == before.previous_pattern {
            self == before
        } else {
            &&& self == (PickerView {
                matches: self.matches,
                cursor: 0,
                previous_pattern: before.line,
                ..before
            })
            &&& if before.line.len() == 0 {
                self.matches == ranking::unfiltered(before.filter_lens())
            } else if text::has_prefix(before.line, before.previous_pattern) {
                self.ranks_matches_of(before, before.line)
            } else {
                self.ranks_all(before.line)
            }
        }
    }

    /// The option that the cursor is on, by its position in the list of options.
    pub open spec fn selected(self) -> Option<usize> {
        if self.cursor < self.matches.len() {
            Some(self.matches[self.cursor].index)
        } else {
            None
        }
    }

    /// The state after the cursor was moved by `amount` entries. In an empty list it cannot move.
    pub open spec fn after_move(self, amount: int, direction: Direction) -> PickerView<T, S> {
        if self.matches.len() == 0 {
            self
        } else {
            PickerView {
                cursor: movement::moved(self.cursor, self.matches.len() as int, amount, direction),
                ..self
            }
        }
    }

    /// The state after the picker was given its size: the list of matches is four rows lower than
    /// the viewport.
    pub open spec fn after_size(self, viewport: (u16, u16)) -> PickerView<T, S> {
        PickerView { completion_height: graphics::max_int(viewport.1 - 4, 0), ..self }
    }

    /// The state with the cursor on the last entry.
    pub open spec fn at_end(self) -> PickerView<T, S> {
        PickerView { cursor: graphics::max_int(self.matches.len() - 1, 0), ..self }
    }

    /// The state after a key press that the picker knows.
    pub open spec fn after_binding(self, binding: Binding) -> PickerView<T, S> {
        match binding {
            Binding::Step(direction) => self.after_move(1, direction),
            Binding::PageUp => self.after_move(self.completion_height, Direction::Forward),
            Binding::PageDown => self.after_move(self.completion_height, Direction::Backward),
            Binding::Start => PickerView { cursor: 0, ..self },
            Binding::End => self.at_end(),
            Binding::TogglePreview => PickerView { show_preview: !self.show_preview, ..self },
            _ => self,
        }
    }

    /// What is left to do after a key press.
    pub open spec fn command(self, binding: Binding) -> Command {
        match binding {
            Binding::Close => Command::Close,
            Binding::Accept(action) => Command::Accept { option: self.selected(), action },
            Binding::Prompt => Command::Prompt,
            _ => Command::Nothing,
        }
    }

    /// The state after an event: only keys change it.
    pub open spec fn after_event(self, event: Event) -> PickerView<T, S> {
        match event {
            Event::Key(key) => self.after_binding(input::binding(key)),
            _ => self,
        }
    }

    /// The answer to an event. Keys are for the picker or its prompt, pasted text is for the
    /// prompt, and a new size is taken note of; other events are for the layers below. Only keys
    /// begin the wait for the next idle timeout anew.
    pub open spec fn outcome(self, event: Event) -> Outcome {
        Outcome {
            consumed: event is Key || event is Paste || event is Resize,
            reset_idle_timer: event is Key,
            command: match event {
                Event::Key(key) => self.command(input::binding(key)),
                Event::Paste => Command::Prompt,
                _ => Command::Nothing,
            },
        }
    }

    /// The label of option `i`.
    pub open spec fn label(self, i: int) -> Seq<(Seq<char>, S)> {
        self.options[i].label_view()
    }

    /// The first entry that is drawn: that of the page of the cursor.
    pub open spec fn first_shown(self, area: Rect) -> int {
        frame::page_start(self.cursor, frame::list_area(area).height as int)
    }

    /// How many entries are drawn: as many as there are rows, or as are left.
    pub open spec fn shown_len(self, area: Rect) -> int {
        graphics::max_int(
            graphics::min_int(
                frame::list_area(area).height as int,
                self.matches.len() - self.first_shown(area),
            ),
            0,
        )
    }

    /// The text of the label on the row with number `k`.
    pub open spec fn shown_text(self, area: Rect, k: int) -> Seq<char> {
        item::label_text(self.label(self.matches[self.first_shown(area) + k].index as int))
    }

    /// The picker can be drawn in `area`: the area itself can be, and there is room to look for the
    /// query in each of the labels that are shown.
    pub open spec fn can_render(self, area: Rect) -> bool {
        &&& frame::drawable(area)
        &&& forall|k: int|
            0 <= k < self.shown_len(area) ==> fuzzy_match::fits_matrix(
                self.line.len(),
                (#[trigger] self.shown_text(area, k)).len(),
            )
    }

    /// The row with number `k`. `found` is what looking for the query in its label has found.
    pub open spec fn row(self, area: Rect, k: int, found: Option<(i64, Seq<usize>)>) -> RowView<S> {
        let entry = self.first_shown(area) + k;
        let list = frame::list_area(area);
        let option = self.matches[entry].index;
        RowView {
            option,
            area: Rect { y: (list.y + k) as u16, height: 1, ..list },
            is_active: entry == self.cursor,
            label: self.label(option as int),
            highlights: frame::highlights(found),
        }
    }

    /// The row with number `k` can be this one.
    pub open spec fn is_row(self, area: Rect, k: int, row: RowView<S>) -> bool {
        exists|found: Option<(i64, Seq<usize>)>| #[trigger]
            fuzzy_match::can_find(self.shown_text(area, k), self.line, found) && row == self.row(
                area,
                k,
                found,
            )
    }

    /// What the picker draws in `area`, with these rows.
    pub open spec fn frame(self, area: Rect, rows: Seq<RowView<S>>) -> FrameView<S> {
        let inner = area.within_border();
        let prompt = frame::prompt_area(area);
        let count = text::ratio(self.matches.len(), self.options.len());
        FrameView {
            area,
            count,
            count_x: graphics::max_int(prompt.end_col() - count.len() - 1, 0),
            count_y: prompt.y as int,
            count_width: graphics::min_int(count.len() as int, prompt.width as int),
            prompt,
            separator_y: inner.y + 1,
            separator_start: inner.x as int,
            separator_end: inner.end_col(),
            marker_x: graphics::max_int(frame::list_area(area).x - 3, 0),
            truncate_start: self.truncate_start,
            rows,
        }
    }

    /// This is what the picker draws in `area`, but for what the matcher prefers to highlight.
    pub open spec fn is_frame(self, area: Rect, frame: FrameView<S>) -> bool {
        &&& frame == self.frame(area, frame.rows)
        &&& frame.rows.len() == self.shown_len(area)
        &&& forall|k: int|
            0 <= k < frame.rows.len() ==> self.is_row(area, k, #[trigger] frame.rows[k])
    }

    /// The filter and the sort text of each option are the same.
    pub open spec fn texts_agree(self) -> bool {
        forall|i: int|
            0 <= i < self.options.len() ==> #[trigger] self.filter_text(i) == self.sort_text(i)
    }
}

impl<T, S> View for Picker<T, S> {
    type V = PickerView<T, S>;

    closed spec fn view(&self) -> PickerView<T, S> {
        PickerView {
            options: self.options@,
            matches: self.matches@,
            completion_height: self.completion_height as int,
            cursor: self.cursor as int,
            line: self.line@,
            previous_pattern: self.previous_pattern@,
            truncate_start: self.truncate_start,
            show_preview: self.show_preview,
        }
    }
}

/// The lengths of the options' filter texts.
fn filter_lens<T, S>(options: &Vec<Item<T, S>>) -> (lens: Vec<usize>)
    ensures
        lens@ == lens_of(options@),
{
    let mut lens: Vec<usize> = Vec::new();
    let mut i: usize = 0;
    while i < options.len()
        invariant
            i <= options.len(),
            lens@ == lens_of(options@).take(i as int),
        decreases options.len() - i,
    {
        lens.push(options[i].filter_text.as_str().unicode_len());
        proof {
            assert(lens_of(options@).take(i + 1) =~= lens_of(options@).take(
                i as int,
            ).push(lens_of(options@)[i as int]));
        }
        i = i + 1;
    }
    proof {
        assert(lens_of(options@).take(i as int) =~= lens_of(options@));
    }
    lens
}

proof fn lemma_unfiltered_view<T, S>(view: PickerView<T, S>)
    requires
        view.options.len() <= usize::MAX,
        view.matches == ranking::unfiltered(view.filter_lens()),
    ensures
        ranking::valid_matches(view.matches, view.filter_lens()),
        view.lists_matches_of(seq![]),
{
    ranking::law_unfiltered_lists_all(view.filter_lens());
    assert forall|i: int| 0 <= i < view.options.len() implies (#[trigger] ranking::lists(
        view.matches,
        i,
    ) <==> fuzzy_match::occurs_in(view.filter_text(i), seq![])) by {
        fuzzy_match::law_empty_pattern_matches_all(view.filter_text(i));
    }
}

proof fn lemma_filtered_view<T, S>(
    before: PickerView<T, S>,
    after: PickerView<T, S>,
    scores: Seq<Option<i64>>,
)
    requires
        before.wf(),
        after == (PickerView { matches: after.matches, ..before }),
        can_score(before.options, before.line, scores),
        ranking::is_ranking_of(after.matches, ranking::filtered(before.filter_lens(), scores)),
    ensures
        after.wf(),
        after.ranks_all(before.line),
        after.lists_matches_of(before.line),
{
    let lens = before.filter_lens();
    ranking::law_filtered_lists_the_scored(lens, scores);
    ranking::law_ranking_keeps_matches(after.matches, ranking::filtered(lens, scores), lens);
    assert forall|i: int| 0 <= i < after.options.len() implies (#[trigger] ranking::lists(
        after.matches,
        i,
    ) <==> fuzzy_match::occurs_in(after.filter_text(i), before.line)) by {
        assert(ranking::lists(ranking::filtered(lens, scores), i) <==> scores[i] is Some);
        assert(fuzzy_match::can_score(before.filter_text(i), before.line, scores[i]));
    }
}

proof fn lemma_refined_view<T, S>(
    before: PickerView<T, S>,
    after: PickerView<T, S>,
    scores: Seq<Option<i64>>,
)
    requires
        before.wf(),
        text::has_prefix(before.line, before.previous_pattern),
        after == (PickerView { matches: after.matches, ..before }),
        before.can_rescore(before.line, scores),
        ranking::is_ranking_of(after.matches, ranking::refined(before.matches, scores)),
    ensures
        after.wf(),
        after.ranks_matches_of(before, before.line),
        before.lists_matches_of(before.previous_pattern) && before.texts_agree()
            ==> after.lists_matches_of(before.line),
{
    let lens = before.filter_lens();
    let kept = ranking::refined(before.matches, scores);
    ranking::law_refined_keeps_the_scored(before.matches, scores, lens);
    ranking::law_ranking_keeps_matches(after.matches, kept, lens);
    if before.lists_matches_of(before.previous_pattern) && before.texts_agree() {
        assert forall|i: int| 0 <= i < after.options.len() implies (#[trigger] ranking::lists(
            after.matches,
            i,
        ) <==> fuzzy_match::occurs_in(after.filter_text(i), before.line)) by {
            assert(before.filter_text(i) == before.sort_text(i));
            assert(ranking::lists(kept, i) <==> ranking::lists(after.matches, i));
            if ranking::lists(kept, i) {
                let j = choose|j: int| 0 <= j < kept.len() && (#[trigger] kept[j]).index == i;
                assert(kept.contains(kept[j]));
                let k = choose|k: int|
                    0 <= k < scores.len() && #[trigger] scores[k] == Some(kept[j].score) && kept[j]
                        == (PickerMatch { score: kept[j].score, ..before.matches[k] });
                assert(scores[k] is Some);
            }
            if fuzzy_match::occurs_in(before.filter_text(i), before.line) {
                fuzzy_match::law_longer_patterns_match_less(
                    before.filter_text(i),
                    before.line,
                    before.previous_pattern,
                );
                assert(ranking::lists(before.matches, i));
                let k = choose|k: int|
                    0 <= k < before.matches.len() && (#[trigger] before.matches[k]).index == i;
                assert(scores[k] is Some);
                let again = PickerMatch { score: scores[k].unwrap(), ..before.matches[k] };
                assert(scores[k] == Some(again.score));
                assert(kept.contains(again));
                let j = choose|j: int| 0 <= j < kept.len() && kept[j] == again;
                assert(kept[j].index == i);
            }
        }
    }
}

impl<T, S> Picker<T, S> {
    /// A picker with an empty prompt, in which all options match.
    pub fn new(options: Vec<Item<T, S>>) -> (picker: Picker<T, S>)
        requires
            forall|i: int| 0 <= i < options@.len() ==> (#[trigger] options@[i]).matchable(),
        ensures
            picker@ == PickerView::fresh(options@),
            picker@.wf(),
            picker@.lists_matches_of(seq![]),
    {
        let lens = filter_lens(&options);
        let matches = ranking::list_all(&lens);
        let picker = Picker {
            options,
            matcher: Matcher::new(),
            matches,
            completion_height: 0,
            cursor: 0,
            line: String::new(),
            previous_pattern: String::new(),
            truncate_start: true,
            show_preview: true,
        };
        proof {
            assert(picker@.options.len() == picker.options.len());
            lemma_unfiltered_view(picker@);
        }
        picker
    }

    /// Brings the list of matches up to date with the prompt.
    pub fn score(&mut self)
        requires
            old(self)@.wf(),
        ensures
            final(self)@.wf(),
            final(self)@.is_scored_from(old(self)@),
            old(self)@.lists_matches_of(old(self)@.previous_pattern) && old(self)@.texts_agree()
                ==> final(self)@.lists_matches_of(final(self)@.previous_pattern),
    {
        if self.line == self.previous_pattern {
            return;
        }
        if self.line.as_str().is_empty() {
            let lens = filter_lens(&self.options);
            self.matches = ranking::list_all(&lens);
            proof {
                assert(self@.line =~= seq![]);
                assert(self@.matches == ranking::unfiltered(old(self)@.filter_lens()));
                lemma_unfiltered_view(self@);
            }
        } else if text::starts_with(self.line.as_str(), self.previous_pattern.as_str()) {
            self.refine();
            assert(self@.ranks_matches_of(old(self)@, old(self)@.line));
        } else {
            self.force_score();
            assert(self@.ranks_all(old(self)@.line));
        }
        self.cursor = 0;
        self.previous_pattern = self.line.clone();
        proof {
            let before = old(self)@;
            assert(self@ =~= PickerView {
                matches: self@.matches,
                cursor: 0,
                previous_pattern: before.line,
                ..before
            });
            if before.line.len() == 0 {
                assert(self@.matches == ranking::unfiltered(before.filter_lens()));
            } else if text::has_prefix(before.line, before.previous_pattern) {
                assert(self@.ranks_matches_of(before, before.line));
            } else {
                assert(self@.ranks_all(before.line));
            }
        }
    }

    /// Matches the listed options against the prompt and drops those that do not match.
    fn refine(&mut self)
        requires
            old(self)@.wf(),
            text::has_prefix(old(self)@.line, old(self)@.previous_pattern),
        ensures
            final(self)@.wf(),
            final(self)@ == (PickerView { matches: final(self)@.matches, ..old(self)@ }),
            final(self)@.ranks_matches_of(old(self)@, old(self)@.line),
            old(self)@.lists_matches_of(old(self)@.previous_pattern) && old(self)@.texts_agree()
                ==> final(self)@.lists_matches_of(old(self)@.line),
    {
        let query = FuzzyQuery::new(self.line.as_str());
        let mut scores: Vec<Option<i64>> = Vec::new();
        let mut i: usize = 0;
        let ghost before = self@;
        while i < self.matches.len()
            invariant
                i <= self.matches.len(),
                self@ == before,
                before.wf(),
                query@ == before.line,
                scores.len() == i,
                forall|k: int|
                    0 <= k < i ==> fuzzy_match::can_score(
                        before.sort_text(before.matches[k].index as int),
                        before.line,
                        #[trigger] scores@[k],
                    ),
            decreases self.matches.len() - i,
        {
            let index: usize = self.matches[i].index;
            proof {
                assert(before.matches[i as int].index < before.filter_lens().len());
                assert(before.options[index as int].matchable());
            }
            scores.push(
                query.fuzzy_match(self.options[index].sort_text.as_str(), &self.matcher),
            );
            i = i + 1;
        }
        self.matches = ranking::rank_rescored(&self.matches, &scores);
        proof {
            lemma_refined_view(before, self@, scores@);
        }
    }

    /// Matches all options against the prompt.
    pub fn force_score(&mut self)
        requires
            old(self)@.wf(),
        ensures
            final(self)@.wf(),
            final(self)@ == (PickerView { matches: final(self)@.matches, ..old(self)@ }),
            final(self)@.ranks_all(old(self)@.line),
            final(self)@.lists_matches_of(old(self)@.line),
    {
        let query = FuzzyQuery::new(self.line.as_str());
        let lens = filter_lens(&self.options);
        let mut scores: Vec<Option<i64>> = Vec::new();
        let mut i: usize = 0;
        let ghost before = self@;
        while i < self.options.len()
            invariant
                i <= self.options.len(),
                self@ == before,
                before.wf(),
                query@ == before.line,
                scores.len() == i,
                forall|k: int|
                    0 <= k < i ==> fuzzy_match::can_score(
                        before.filter_text(k),
                        before.line,
                        #[trigger] scores@[k],
                    ),
            decreases self.options.len() - i,
        {
            proof {
                assert(before.options[i as int].matchable());
            }
            scores.push(query.fuzzy_match(self.options[i].filter_text.as_str(), &self.matcher));
            i = i + 1;
        }
        self.matches = ranking::rank_scored(&lens, &scores);
        proof {
            lemma_filtered_view(before, self@, scores@);
        }
    }

    /// Takes new options in place of the old ones and matches them against the prompt. The cursor
    /// goes to the first entry.
    pub fn replace_options(&mut self, options: Vec<Item<T, S>>)
        requires
            old(self)@.wf(),
            forall|i: int| 0 <= i < options@.len() ==> (#[trigger] options@[i]).matchable(),
        ensures
            final(self)@.wf(),
            final(self)@ == (PickerView {
                options: options@,
                matches: final(self)@.matches,
                cursor: 0,
                ..old(self)@
            }),
            final(self)@.ranks_all(old(self)@.line),
            final(self)@.lists_matches_of(old(self)@.line),
    {
        self.options = options;
        self.matches = Vec::new();
        self.cursor = 0;
        proof {
            assert(self@.options.len() == self.options.len());
        }
        self.force_score();
    }

    /// Moves the cursor by a number of lines, either down (`Forward`) or up (`Backward`).
    pub fn move_by(&mut self, amount: usize, direction: Direction)
        ensures
            final(self)@ == old(self)@.after_move(amount as int, direction),
    {
        let len: usize = self.matches.len();
        if len == 0 {
            return;
        }
        self.cursor = movement::move_cursor(self.cursor, len, amount, direction);
    }

    /// Moves the cursor down by exactly one page. After the last page comes the first page.
    pub fn page_up(&mut self)
        ensures
            final(self)@ == old(self)@.after_move(old(self)@.completion_height, Direction::Forward),
    {
        self.move_by(self.completion_height as usize, Direction::Forward);
    }

    /// Moves the cursor up by exactly one page. After the first page comes the last page.
    pub fn page_down(&mut self)
        ensures
            final(self)@ == old(self)@.after_move(
                old(self)@.completion_height,
                Direction::Backward,
            ),
    {
        self.move_by(self.completion_height as usize, Direction::Backward);
    }

    /// Moves the cursor to the first entry.
    pub fn to_start(&mut self)
        ensures
            final(self)@ == (PickerView { cursor: 0, ..old(self)@ }),
    {
        self.cursor = 0;
    }

    /// Moves the cursor to the last entry.
    pub fn to_end(&mut self)
        ensures
            final(self)@ == old(self)@.at_end(),
    {
        self.cursor = self.matches.len().saturating_sub(1);
    }

    /// The position, in the list of options, of the option that the cursor is on.
    fn selected_index(&self) -> (index: Option<usize>)
        ensures
            index == self@.selected(),
    {
        if self.cursor < self.matches.len() {
            Some(self.matches[self.cursor].index)
        } else {
            None
        }
    }

    /// Whether the cursor is on an option.
    pub fn has_selection(&self) -> (has: bool)
        ensures
            has == (self@.selected() is Some),
            has == (self@.cursor < self@.matches.len()),
    {
        self.cursor < self.matches.len()
    }

    /// Whether the preview panel is to be shown.
    pub fn shows_preview(&self) -> (shows: bool)
        ensures
            shows == self@.show_preview,
    {
        self.show_preview
    }

    /// The line in the prompt.
    pub fn line(&self) -> (line: &String)
        ensures
            line@ == self@.line,
    {
        &self.line
    }

    /// The option at a position of the list of options.
    pub fn option(&self, index: usize) -> (option: Option<&T>)
        ensures
            option == (if index < self@.options.len() {
                Some(&self@.options[index as int].value)
            } else {
                None
            }),
    {
        if index < self.options.len() {
            Some(&self.options[index].value)
        } else {
            None
        }
    }

    /// The option that the cursor is on.
    pub fn selection(&self) -> (option: Option<&T>)
        requires
            self@.wf(),
        ensures
            option == (match self@.selected() {
                Some(index) => Some(&self@.options[index as int].value),
                None => None,
            }),
            self@.cursor < self@.matches.len() ==> option == Some(
                &self@.options[self@.matches[self@.cursor].index as int].value,
            ),
            self@.cursor >= self@.matches.len() ==> option is None,
    {
        match self.selected_index() {
            Some(index) => {
                proof {
                    assert(self@.matches[self@.cursor].index < self@.filter_lens().len());
                }
                Some(&self.options[index].value)
            },
            None => None,
        }
    }

    /// Shows or hides the preview panel.
    pub fn toggle_preview(&mut self)
        ensures
            final(self)@ == (PickerView { show_preview: !old(self)@.show_preview, ..old(self)@ }),
    {
        self.show_preview = !self.show_preview;
    }

    /// Sets whether labels that are too long lose their start.
    pub fn set_truncate_start(&mut self, truncate_start: bool)
        ensures
            final(self)@ == (PickerView { truncate_start, ..old(self)@ }),
    {
        self.truncate_start = truncate_start;
    }

    /// Takes over the prompt's line after the prompt has seen an event, and matches anew if the
    /// prompt has used the event.
    pub fn prompt_handle_event(&mut self, prompt_consumed: bool, line: String) -> (outcome: Outcome)
        requires
            old(self)@.wf(),
        ensures
            final(self)@.wf(),
            outcome == (Outcome {
                consumed: true,
                reset_idle_timer: false,
                command: Command::Nothing,
            }),
            ({
                let with_line = PickerView { line: line@, ..old(self)@ };
                if prompt_consumed {
                    final(self)@.is_scored_from(with_line)
                } else {
                    final(self)@ == with_line
                }
            }),
            old(self)@.lists_matches_of(old(self)@.previous_pattern) && old(self)@.texts_agree()
                ==> final(self)@.lists_matches_of(final(self)@.previous_pattern),
    {
        self.line = line;
        proof {
            if old(self)@.texts_agree() {
                assert forall|i: int| 0 <= i < self@.options.len() implies #[trigger] self@.filter_text(
                    i,
                ) == self@.sort_text(i) by {
                    assert(old(self)@.filter_text(i) == old(self)@.sort_text(i));
                }
            }
        }
        if prompt_consumed {
            self.score();
        }
        Outcome { consumed: true, reset_idle_timer: false, command: Command::Nothing }
    }

    /// Gives the picker its size: a list of matches four rows lower than the viewport.
    pub fn required_size(&mut self, viewport: (u16, u16)) -> (size: Option<(u16, u16)>)
        ensures
            size == Some(viewport),
            final(self)@ == old(self)@.after_size(viewport),
    {
        self.completion_height = viewport.1.saturating_sub(4);
        Some(viewport)
    }

    /// Lets the picker see an event. It moves its cursor and shows or hides the preview itself;
    /// the outcome says what else is to be done.
    pub fn handle_event(&mut self, event: Event) -> (outcome: Outcome)
        ensures
            final(self)@ == old(self)@.after_event(event),
            outcome == old(self)@.outcome(event),
            old(self)@.wf() ==> final(self)@.wf(),
    {
        let key = match event {
            Event::Key(key) => key,
            Event::Paste => {
                return Outcome {
                    consumed: true,
                    reset_idle_timer: false,
                    command: Command::Prompt,
                };
            },
            Event::Resize(_, _) => {
                return Outcome {
                    consumed: true,
                    reset_idle_timer: false,
                    command: Command::Nothing,
                };
            },
            _ => {
                return Outcome {
                    consumed: false,
                    reset_idle_timer: false,
                    command: Command::Nothing,
                };
            },
        };
        let command = match input::key_binding(key) {
            Binding::Step(direction) => {
                self.move_by(1, direction);
                Command::Nothing
            },
            Binding::PageDown => {
                self.page_down();
                Command::Nothing
            },
            Binding::PageUp => {
                self.page_up();
                Command::Nothing
            },
            Binding::Start => {
                self.to_start();
                Command::Nothing
            },
            Binding::End => {
                self.to_end();
                Command::Nothing
            },
            Binding::Close => Command::Close,
            Binding::Accept(action) => Command::Accept { option: self.selected_index(), action },
            Binding::TogglePreview => {
                self.toggle_preview();
                Command::Nothing
            },
            Binding::Prompt => Command::Prompt,
        };
        Outcome { consumed: true, reset_idle_timer: true, command }
    }

    /// The row for the entry `entry`, which is drawn `k` rows below the first.
    fn render_row(&self, area: Rect, list: Rect, entry: usize, k: u16) -> (row: RowFrame<'_, S>)
        requires
            self@.wf(),
            area.fits(),
            list == frame::list_area(area),
            k < list.height,
            list.fits(),
            entry == self@.first_shown(area) + k,
            entry < self@.matches.len(),
            fuzzy_match::fits_matrix(self@.line.len(), self@.shown_text(area, k as int).len()),
        ensures
            self@.is_row(area, k as int, row@),
    {
        let index: usize = self.matches[entry].index;
        proof {
            assert(self@.matches[entry as int].index < self@.filter_lens().len());
            assert(self@.options[index as int].matchable());
        }
        let label: &Vec<Span<S>> = &self.options[index].label;
        let label_text = item::join_spans(label);
        let found = FuzzyQuery::new(self.line.as_str()).fuzzy_indicies(
            label_text.as_str(),
            &self.matcher,
        );
        proof {
            assert(fuzzy_match::can_find(
                self@.shown_text(area, k as int),
                self@.line,
                fuzzy_match::found_view(found),
            ));
        }
        let row_area = Rect { x: list.x, y: list.y + k, width: list.width, height: 1 };
        RowFrame::new(index, row_area, entry == self.cursor, label, found)
    }

    /// Whether the picker can be drawn in `area`.
    pub fn can_render(&self, area: Rect) -> (can: bool)
        requires
            self@.wf(),
        ensures
            can == self@.can_render(area),
    {
        if !frame::is_drawable(area) {
            return false;
        }
        let list = frame::list_area_in(area);
        let offset: usize = frame::page_start_of(self.cursor, list.height);
        let line_len: usize = self.line.as_str().unicode_len();
        let mut k: u16 = 0;
        while k < list.height && offset < self.matches.len() && (k as usize) < self.matches.len()
            - offset
            invariant
                k <= list.height,
                k == 0 || offset + k <= self.matches.len(),
                list == frame::list_area(area),
                frame::drawable(area),
                self@.wf(),
                offset == self@.first_shown(area),
                line_len == self@.line.len(),
                forall|i: int|
                    0 <= i < k ==> fuzzy_match::fits_matrix(
                        self@.line.len(),
                        (#[trigger] self@.shown_text(area, i)).len(),
                    ),
            decreases list.height - k,
        {
            let entry: usize = offset + k as usize;
            let index: usize = self.matches[entry].index;
            proof {
                assert(self@.matches[entry as int].index < self@.filter_lens().len());
                assert(self@.options[index as int].matchable());
            }
            let label_text = item::join_spans(&self.options[index].label);
            let text_len: usize = label_text.as_str().unicode_len();
            proof {
                assert(text_len == self@.shown_text(area, k as int).len());
            }
            if !fuzzy_match::matrix_fits(line_len, text_len) {
                return false;
            }
            k = k + 1;
        }
        true
    }

    /// Lays the picker out in `area`.
    pub fn render(&self, area: Rect) -> (frame: PickerFrame<'_, S>)
        requires
            self@.wf(),
            self@.can_render(area),
        ensures
            self@.is_frame(area, frame@),
    {
        let inner = area.inside_border();
        let prompt = frame::prompt_area_in(area);
        let list = frame::list_area_in(area);
        let count = text::ratio_text(self.matches.len(), self.options.len());
        let count_len: usize = count.as_str().unicode_len();
        proof {
            text::lemma_ratio_len(self.matches.len(), self.options.len());
        }
        let offset: usize = frame::page_start_of(self.cursor, list.height);
        let mut rows: Vec<RowFrame<'_, S>> = Vec::new();
        let mut k: u16 = 0;
        while k < list.height && offset < self.matches.len() && (k as usize) < self.matches.len()
            - offset
            invariant
                k <= list.height,
                k == 0 || offset + k <= self.matches.len(),
                list == frame::list_area(area),
                list.fits(),
                area.fits(),
                self@.wf(),
                offset == self@.first_shown(area),
                rows.len() == k,
                self@.can_render(area),
                forall|i: int|
                    0 <= i < k ==> self@.is_row(area, i, (#[trigger] rows@[i])@),
            decreases list.height - k,
        {
            proof {
                assert(fuzzy_match::fits_matrix(
                    self@.line.len(),
                    self@.shown_text(area, k as int).len(),
                ));
            }
            rows.push(self.render_row(area, list, offset + k as usize, k));
            k = k + 1;
        }
        let frame = PickerFrame {
            area,
            count,
            count_x: (prompt.x + prompt.width).saturating_sub(count_len as u16 + 1),
            count_y: prompt.y,
            count_width: if count_len < prompt.width as usize {
                count_len
            } else {
                prompt.width as usize
            },
            prompt,
            separator_y: inner.y + 1,
            separator_start: inner.x,
            separator_end: inner.x + inner.width,
            marker_x: list.x.saturating_sub(3),
            truncate_start: self.truncate_start,
            rows,
        };
        proof {
            assert forall|i: int| 0 <= i < frame@.rows.len() implies self@.is_row(
                area,
                i,
                #[trigger] frame@.rows[i],
            ) by {
                assert(frame@.rows[i] == rows@[i]@);
            }
        }
        frame
    }

    /// The area of the prompt, which decides where the terminal's cursor is.
    pub fn cursor(&self, area: Rect) -> (prompt: Rect)
        requires
            area.fits(),
        ensures
            prompt == frame::prompt_area(area),
    {
        frame::prompt_area_in(area)
    }
}

} // verus!
