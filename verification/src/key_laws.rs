//! What the keys and other events do to a picker.

use vstd::prelude::*;

use crate::frame::FrameView;
use crate::graphics::Rect;
use crate::input::{Action, Command, Direction, Event, KeyCode, KeyEvent};
use crate::movement;
use crate::picker::PickerView;

verus! {

/// The cursor is on the option of its entry; past the end of the list it is on none.
pub proof fn law_selected_is_the_entry_of_the_cursor<T, S>(view: PickerView<T, S>)
    ensures
        view.cursor < view.matches.len() ==> view.selected() == Some(
            view.matches[view.cursor].index,
        ),
        view.cursor >= view.matches.len() ==> view.selected() is None,
{
}

/// Enter, control and `s`, and control and `v` open the option of the entry that the cursor is on,
/// if there is one: in place, or in a split. It is the option of the row that is drawn as active.
/// No other key opens anything.
pub proof fn law_accepting_opens_the_option_of_the_cursor<T, S>(
    view: PickerView<T, S>,
    key: KeyEvent,
    area: Rect,
    frame: FrameView<S>,
    k: int,
)
    requires
        view.is_frame(area, frame),
    ensures
        ({
            let held = key.modifiers;
            let bare = !held.shift && !held.control && !held.alt;
            let control = !held.shift && held.control && !held.alt;
            let action = if bare && key.code == KeyCode::Enter {
                Some(Action::Replace)
            } else if control && key.code == KeyCode::Char('s') {
                Some(Action::HorizontalSplit)
            } else if control && key.code == KeyCode::Char('v') {
                Some(Action::VerticalSplit)
            } else {
                None
            };
            let option = if view.cursor < view.matches.len() {
                Some(view.matches[view.cursor].index)
            } else {
                None
            };
            let command = view.outcome(Event::Key(key)).command;
            &&& action is Some ==> command == (Command::Accept { option, action: action.unwrap() })
            &&& action is None ==> !(command is Accept)
            &&& action is Some && 0 <= k < frame.rows.len() && frame.rows[k].is_active ==> command
                == (Command::Accept { option: Some(frame.rows[k].option), action: action.unwrap() })
        }),
{
    if 0 <= k < frame.rows.len() {
        assert(view.is_row(area, k, frame.rows[k]));
    }
}

/// Escape and control and `c` close the picker. Keys without a meaning of their own are for the
/// prompt, and no others.
pub proof fn law_other_commands_of_keys<T, S>(view: PickerView<T, S>, key: KeyEvent)
    ensures
        ({
            let held = key.modifiers;
            let bare = !held.shift && !held.control && !held.alt;
            let control = !held.shift && held.control && !held.alt;
            let shift = held.shift && !held.control && !held.alt;
            let code = key.code;
            let bound = {
                ||| bare && (code == KeyCode::Enter || code == KeyCode::Esc || code
                == KeyCode::Tab || code == KeyCode::Up || code == KeyCode::Down || code
                == KeyCode::PageUp || code == KeyCode::PageDown || code == KeyCode::Home || code
                == KeyCode::End)
                ||| shift && code == KeyCode::Tab
                ||| control && (code == KeyCode::Char('p') || code == KeyCode::Char('n') || code
                    == KeyCode::Char('d') || code == KeyCode::Char('u') || code == KeyCode::Char(
                    'c',
                ) || code == KeyCode::Char('s') || code == KeyCode::Char('v') || code
                    == KeyCode::Char('t'))
            };
            let closes = (bare && code == KeyCode::Esc) || (control && code == KeyCode::Char('c'));
            let command = view.outcome(Event::Key(key)).command;
            &&& command == Command::Prompt <==> !bound
            &&& command == Command::Close <==> closes
            &&& view.outcome(Event::Key(key)).consumed
            &&& view.outcome(Event::Key(key)).reset_idle_timer
        }),
{
}

/// Up, shift and tab, and control and `p` go to the entry before, from the first to the last; down,
/// tab, and control and `n` go to the next entry, from the last to the first.
pub proof fn law_step_keys<T, S>(view: PickerView<T, S>, key: KeyEvent)
    requires
        0 <= view.cursor < view.matches.len(),
        2 * view.matches.len() <= usize::MAX,
    ensures
        ({
            let held = key.modifiers;
            let bare = !held.shift && !held.control && !held.alt;
            let control = !held.shift && held.control && !held.alt;
            let shift = held.shift && !held.control && !held.alt;
            let up = (bare && key.code == KeyCode::Up) || (shift && key.code == KeyCode::Tab) || (
            control && key.code == KeyCode::Char('p'));
            let down = (bare && (key.code == KeyCode::Down || key.code == KeyCode::Tab)) || (control
                && key.code == KeyCode::Char('n'));
            let last = view.matches.len() - 1;
            let after = view.after_event(Event::Key(key)).cursor;
            &&& up && view.cursor > 0 ==> after == view.cursor - 1
            &&& up && view.cursor == 0 ==> after == last
            &&& down && view.cursor < last ==> after == view.cursor + 1
            &&& down && view.cursor == last ==> after == 0
            &&& up || down ==> view.outcome(Event::Key(key)).command == Command::Nothing
        }),
{
    movement::law_steps_go_round(view.cursor, view.matches.len() as int);
}

/// Page up and control and `u` go down by one page, and page down and control and `d` up by one
/// page, reading the list as a ring; a move up that is longer than the way to the start and once
/// round ends on the first entry.
pub proof fn law_page_keys<T, S>(view: PickerView<T, S>, key: KeyEvent)
    requires
        0 <= view.cursor < view.matches.len(),
        0 <= view.completion_height,
        view.cursor + view.completion_height <= usize::MAX,
        2 * view.matches.len() <= usize::MAX,
    ensures
        ({
            let held = key.modifiers;
            let bare = !held.shift && !held.control && !held.alt;
            let control = !held.shift && held.control && !held.alt;
            let page_up = (bare && key.code == KeyCode::PageUp) || (control && key.code
                == KeyCode::Char('u'));
            let page_down = (bare && key.code == KeyCode::PageDown) || (control && key.code
                == KeyCode::Char('d'));
            let len = view.matches.len() as int;
            let page = view.completion_height;
            let after = view.after_event(Event::Key(key)).cursor;
            &&& page_up || page_down ==> 0 <= after < len
            &&& page_up ==> (view.cursor + page - after) % len == 0
            &&& page_down && page <= view.cursor + len ==> (view.cursor - page - after) % len == 0
            &&& page_down && page > view.cursor + len ==> after == 0
            &&& page_up || page_down ==> view.outcome(Event::Key(key)).command == Command::Nothing
        }),
{
    let len = view.matches.len() as int;
    movement::law_moves_go_round(view.cursor, len, view.completion_height);
}

/// Home goes to the first entry and end to the last, and control and `t` shows the preview if it
/// was hidden and hides it if it was shown.
pub proof fn law_start_end_and_toggle_keys<T, S>(view: PickerView<T, S>, key: KeyEvent)
    ensures
        ({
            let held = key.modifiers;
            let bare = !held.shift && !held.control && !held.alt;
            let control = !held.shift && held.control && !held.alt;
            let toggles = control && key.code == KeyCode::Char('t');
            let after = view.after_event(Event::Key(key));
            &&& bare && key.code == KeyCode::Home ==> after.cursor == 0
            &&& bare && key.code == KeyCode::End && view.matches.len() > 0 ==> after.cursor
                == view.matches.len() - 1
            &&& bare && key.code == KeyCode::End && view.matches.len() == 0 ==> after.cursor == 0
            &&& toggles <==> after.show_preview != view.show_preview
            &&& toggles || (bare && (key.code == KeyCode::Home || key.code == KeyCode::End))
                ==> view.outcome(Event::Key(key)).command == Command::Nothing
        }),
{
}

/// An event changes nothing but the cursor and whether the preview is shown, and the cursor only by
/// the keys that move it.
pub proof fn law_events_change_little<T, S>(view: PickerView<T, S>, event: Event)
    ensures
        ({
            let after = view.after_event(event);
            &&& after.options == view.options
            &&& after.matches == view.matches
            &&& after.completion_height == view.completion_height
            &&& after.line == view.line
            &&& after.previous_pattern == view.previous_pattern
            &&& after.truncate_start == view.truncate_start
            &&& !(event is Key) ==> after.cursor == view.cursor && after.show_preview
                == view.show_preview
            &&& event matches Event::Key(key) ==> {
                let held = key.modifiers;
                let bare = !held.shift && !held.control && !held.alt;
                let control = !held.shift && held.control && !held.alt;
                let shift = held.shift && !held.control && !held.alt;
                let code = key.code;
                let moves = {
                    ||| bare && (code == KeyCode::Tab || code == KeyCode::Up || code
                    == KeyCode::Down || code == KeyCode::PageUp || code == KeyCode::PageDown || code
                    == KeyCode::Home || code == KeyCode::End)
                ||| shift && code == KeyCode::Tab
                ||| control && (code == KeyCode::Char('p') || code == KeyCode::Char('n') || code
                    == KeyCode::Char('d') || code == KeyCode::Char('u'))
                };
                !moves ==> after.cursor == view.cursor
            }
        }),
{
}

/// Pasted text is for the prompt, a new size ends here, and all else but keys is for the layers
/// below. None of them begins the wait for an idle timeout anew.
pub proof fn law_events_other_than_keys<T, S>(view: PickerView<T, S>, width: u16, height: u16)
    ensures
        view.outcome(Event::Paste).consumed,
        !view.outcome(Event::Paste).reset_idle_timer,
        view.outcome(Event::Paste).command == Command::Prompt,
        view.outcome(Event::Resize(width, height)).consumed,
        !view.outcome(Event::Resize(width, height)).reset_idle_timer,
        view.outcome(Event::Resize(width, height)).command == Command::Nothing,
        !view.outcome(Event::IdleTimeout).consumed,
        !view.outcome(Event::IdleTimeout).reset_idle_timer,
        view.outcome(Event::IdleTimeout).command == Command::Nothing,
        !view.outcome(Event::Other).consumed,
        !view.outcome(Event::Other).reset_idle_timer,
        view.outcome(Event::Other).command == Command::Nothing,
{
}

/// A move changes the cursor alone, by the amount and in the direction asked for, reading the list
/// as a ring; a move up that is longer than the way round ends on the first entry, and in an empty
/// list nothing moves.
pub proof fn law_moves_go_by_the_amount<T, S>(
    view: PickerView<T, S>,
    amount: int,
    direction: Direction,
)
    requires
        0 <= view.cursor,
        0 <= amount,
        view.cursor + amount <= usize::MAX,
        view.cursor + view.matches.len() <= usize::MAX,
    ensures
        ({
            let after = view.after_move(amount, direction);
            let len = view.matches.len() as int;
            &&& after == (PickerView { cursor: after.cursor, ..view })
            &&& len == 0 ==> after.cursor == view.cursor
            &&& len > 0 ==> 0 <= after.cursor < len
            &&& len > 0 && direction == Direction::Forward ==> (view.cursor + amount - after.cursor)
                % len == 0
            &&& len > 0 && direction == Direction::Backward && amount <= view.cursor + len ==> (
            view.cursor - amount - after.cursor) % len == 0
            &&& len > 0 && direction == Direction::Backward && amount > view.cursor + len
                ==> after.cursor == 0
        }),
{
    if view.matches.len() > 0 {
        movement::law_moves_go_round(view.cursor, view.matches.len() as int, amount);
    }
}

/// Being given its size changes a picker's page alone: it is four rows lower than the viewport.
pub proof fn law_size_sets_the_page<T, S>(view: PickerView<T, S>, width: u16, height: u16)
    ensures
        ({
            let after = view.after_size((width, height));
            &&& after == (PickerView { completion_height: after.completion_height, ..view })
            &&& height >= 4 ==> after.completion_height == height - 4
            &&& height < 4 ==> after.completion_height == 0
        }),
{
}

} // verus!
