//! A file picker whose options come from a query.

use vstd::prelude::*;

use crate::file_picker::{FileFrame, FilePicker, FilePickerView};
use crate::frame;
use crate::graphics::Rect;
use crate::input::{Command, Event, Outcome};
use crate::item::Item;
use crate::picker::PickerView;

verus! {

/// A picker that updates its contents whenever the query string changes. Useful for live grep,
/// workspace symbols, etc.
pub struct DynamicPicker<T, S, D> {
    file_picker: FilePicker<T, S, D>,
    query: String,
}

/// The state of a dynamic picker.
pub struct DynamicPickerView<T, S, D> {
    pub file_picker: FilePickerView<T, S, D>,
    /// The query that was asked last.
    pub query: Seq<char>,
}

/// The answer of a dynamic picker to an event.
pub struct DynamicOutcome {
    pub outcome: Outcome,
    /// A query to ask for new options.
    pub query: Option<String>,
}

impl<T, S, D> DynamicPickerView<T, S, D> {
    /// The prompt holds a query that was not asked.
    pub open spec fn has_new_query(self) -> bool {
        self.query != self.file_picker.picker.line
    }

    /// The query to ask after an event: the prompt's line, if nothing has happened for a while and
    /// it was not asked last.
    pub open spec fn asks(self, event: Event) -> Option<Seq<char>> {
        if event is IdleTimeout && self.has_new_query() {
            Some(self.file_picker.picker.line)
        } else {
            None
        }
    }

    /// The state after an event.
    pub open spec fn after_event(self, event: Event) -> DynamicPickerView<T, S, D> {
        DynamicPickerView {
            file_picker: self.file_picker.after_event(event),
            query: match self.asks(event) {
                Some(query) => query,
                None => self.query,
            },
        }
    }
}

impl<T, S, D> View for DynamicPicker<T, S, D> {
    type V = DynamicPickerView<T, S, D>;

    closed spec fn view(&self) -> DynamicPickerView<T, S, D> {
        DynamicPickerView { file_picker: self.file_picker@, query: self.query@ }
    }
}

impl<T, S, D> DynamicPicker<T, S, D> {
    /// Names the layer of a dynamic picker.
    pub const ID: &'static str = "dynamic-picker";

    /// The state is sound.
    pub closed spec fn wf(&self) -> bool {
        self.file_picker.wf()
    }

    /// A dynamic picker that has asked nothing yet.
    pub fn new(file_picker: FilePicker<T, S, D>) -> (picker: DynamicPicker<T, S, D>)
        ensures
            picker@.file_picker == file_picker@,
            picker@.query == Seq::<char>::empty(),
            file_picker.wf() ==> picker.wf(),
    {
        DynamicPicker { file_picker, query: String::new() }
    }

    /// The file picker.
    pub fn file_picker(&self) -> (file_picker: &FilePicker<T, S, D>)
        ensures
            file_picker@ == self@.file_picker,
            self.wf() ==> file_picker.wf(),
    {
        &self.file_picker
    }

    /// The file picker, to be changed.
    pub fn file_picker_mut(&mut self) -> (file_picker: &mut FilePicker<T, S, D>)
        ensures
            (*file_picker)@ == old(self)@.file_picker,
            old(self).wf() ==> (*file_picker).wf(),
            final(self)@ == (DynamicPickerView {
                file_picker: (*final(file_picker))@,
                ..old(self)@
            }),
            (*final(file_picker)).wf() ==> final(self).wf(),
    {
        &mut self.file_picker
    }

    /// Lets the dynamic picker see an event.
    pub fn handle_event(&mut self, event: Event) -> (outcome: DynamicOutcome)
        ensures
            old(self).wf() ==> final(self).wf(),
            final(self)@ == old(self)@.after_event(event),
            outcome.outcome == old(self)@.file_picker.outcome(event),
            match outcome.query {
                Some(query) => old(self)@.asks(event) == Some(query@),
                None => old(self)@.asks(event) is None,
            },
    {
        let outcome = self.file_picker.handle_event(event);
        match event {
            Event::IdleTimeout => {
                let current_query: String = self.file_picker.picker().line().clone();
                if self.query == current_query {
                    return DynamicOutcome { outcome, query: None };
                }
                self.query = current_query.clone();
                DynamicOutcome { outcome, query: Some(current_query) }
            },
            _ => DynamicOutcome { outcome, query: None },
        }
    }

    /// Takes the answer to a query: the new options come in place of the old ones and are matched
    /// against the prompt, with the cursor on the first entry.
    pub fn update_options(&mut self, new_options: Vec<Item<T, S>>) -> (outcome: Outcome)
        requires
            old(self).wf(),
            forall|i: int| 0 <= i < new_options@.len() ==> (#[trigger] new_options@[i]).matchable(),
        ensures
            final(self).wf(),
            outcome == (Outcome {
                consumed: true,
                reset_idle_timer: true,
                command: Command::Nothing,
            }),
            ({
                let before = old(self)@.file_picker.picker;
                let after = final(self)@.file_picker.picker;
                &&& final(self)@ == (DynamicPickerView {
                    file_picker: FilePickerView { picker: after, ..old(self)@.file_picker },
                    ..old(self)@
                })
                &&& after == (PickerView {
                    options: new_options@,
                    matches: after.matches,
                    cursor: 0,
                    ..before
                })
                &&& after.ranks_all(before.line)
                &&& after.lists_matches_of(before.line)
            }),
    {
        let picker = self.file_picker.picker_mut();
        picker.replace_options(new_options);
        Outcome { consumed: true, reset_idle_timer: true, command: Command::Nothing }
    }

    /// Lays the panes of the file picker out in `area`.
    pub fn render(&self, area: Rect) -> (frame: FileFrame<'_, S>)
        requires
            self.wf(),
            self@.file_picker.can_render(area),
        ensures
            self@.file_picker.picker.is_frame(
                self@.file_picker.picker_area(area),
                frame.picker@,
            ),
            frame.preview == self@.file_picker.preview_frame(area),
    {
        self.file_picker.render(area)
    }

    /// The area of the prompt, which decides where the terminal's cursor is.
    pub fn cursor(&self, area: Rect) -> (prompt: Rect)
        requires
            area.fits(),
        ensures
            prompt == frame::prompt_area(area),
    {
        self.file_picker.cursor(area)
    }

    /// Gives the dynamic picker its size.
    pub fn required_size(&mut self, viewport: (u16, u16)) -> (required: Option<(u16, u16)>)
        ensures
            required == Some(viewport),
            old(self).wf() ==> final(self).wf(),
            final(self)@ == (DynamicPickerView {
                file_picker: FilePickerView {
                    picker: old(self)@.file_picker.picker.after_size(viewport),
                    ..old(self)@.file_picker
                },
                ..old(self)@
            }),
    {
        self.file_picker.required_size(viewport)
    }

    /// Names the layer of the picker.
    pub fn id(&self) -> (id: Option<&'static str>)
        ensures
            id matches Some(name) && name@ == "dynamic-picker"@,
    {
        Some(Self::ID)
    }
}

/// A query is asked once: after it was asked, nothing is asked until the prompt has changed.
pub proof fn law_query_is_asked_once<T, S, D>(
    view: DynamicPickerView<T, S, D>,
    event: Event,
    next: Event,
)
    requires
        view.asks(event) is Some,
    ensures
        view.after_event(event).asks(next) is None,
{
}

/// A changed prompt is asked for at the next idle timeout.
pub proof fn law_changed_prompt_is_asked<T, S, D>(view: DynamicPickerView<T, S, D>)
    requires
        view.file_picker.picker.line != view.query,
    ensures
        view.asks(Event::IdleTimeout) == Some(view.file_picker.picker.line),
{
}

/// A query is asked exactly at an idle timeout, and only if the prompt does not hold what was asked
/// last; what is asked is the prompt's line, and it is remembered as asked. No other event changes
/// what was asked last.
pub proof fn law_when_a_query_is_asked<T, S, D>(view: DynamicPickerView<T, S, D>, event: Event)
    ensures
        ({
            let line = view.file_picker.picker.line;
            let asks = event is IdleTimeout && line != view.query;
            &&& view.asks(event) is Some <==> asks
            &&& asks ==> view.asks(event) == Some(line)
            &&& asks ==> view.after_event(event).query == line
            &&& !asks ==> view.after_event(event).query == view.query
            &&& view.after_event(event).file_picker == view.file_picker.after_event(event)
        }),
{
}

} // verus!
