//! Events and the keys a picker is bound to.

use vstd::prelude::*;

verus! {

/// A key without its modifiers, as far as a picker tells keys apart.
#[derive(Clone, Copy, PartialEq, Eq, Structural, Debug)]
pub enum KeyCode {
    Enter,
    Esc,
    Tab,
    Up,
    Down,
    PageUp,
    PageDown,
    Home,
    End,
    Char(char),
    Other,
}

/// The modifiers held while a key is pressed.
#[derive(Clone, Copy, PartialEq, Eq, Structural, Debug)]
pub struct KeyModifiers {
    pub shift: bool,
    pub control: bool,
    pub alt: bool,
}

/// A key press.
#[derive(Clone, Copy, PartialEq, Eq, Structural, Debug)]
pub struct KeyEvent {
    pub code: KeyCode,
    pub modifiers: KeyModifiers,
}

/// What a picker can be told of.
#[derive(Clone, Copy, PartialEq, Eq, Structural, Debug)]
pub enum Event {
    /// A key was pressed.
    Key(KeyEvent),
    /// Text was pasted.
    Paste,
    /// The terminal has a new size.
    Resize(u16, u16),
    /// Nothing has happened for a while.
    IdleTimeout,
    /// Anything else: the mouse, a change of focus.
    Other,
}

/// A way to open what was picked.
#[derive(Clone, Copy, PartialEq, Eq, Structural, Debug)]
pub enum Action {
    Replace,
    HorizontalSplit,
    VerticalSplit,
}

/// A direction in a list: down is forward.
#[derive(Clone, Copy, PartialEq, Eq, Structural, Debug)]
pub enum Direction {
    Forward,
    Backward,
}

/// What a key does in a picker.
#[derive(Clone, Copy, PartialEq, Eq, Structural, Debug)]
pub enum Binding {
    /// Move the cursor by one entry.
    Step(Direction),
    /// Move the cursor down by one page.
    PageUp,
    /// Move the cursor up by one page.
    PageDown,
    /// Move the cursor to the first entry.
    Start,
    /// Move the cursor to the last entry.
    End,
    /// Close the picker.
    Close,
    /// Open the selection and close the picker.
    Accept(Action),
    /// Show or hide the preview pane.
    TogglePreview,
    /// Hand the key to the prompt.
    Prompt,
}

/// What is left to do after a picker has seen an event.
#[derive(Clone, Copy, PartialEq, Eq, Structural, Debug)]
pub enum Command {
    /// Nothing.
    Nothing,
    /// Hand the event to the prompt.
    Prompt,
    /// Close the picker.
    Close,
    /// Open the option at this position of the list of options, if there is one, and close the
    /// picker.
    Accept { option: Option<usize>, action: Action },
    /// Detect the language of the document that is previewed.
    DetectLanguage,
}

/// The answer of a picker to an event.
#[derive(Clone, Copy, PartialEq, Eq, Structural, Debug)]
pub struct Outcome {
    /// Whether the event ends here; otherwise it is for the layers below.
    pub consumed: bool,
    /// Whether the wait for the next idle timeout begins anew.
    pub reset_idle_timer: bool,
    pub command: Command,
}

/// The key was pressed alone.
pub open spec fn plain(key: KeyEvent, code: KeyCode) -> bool {
    key.code == code && !key.modifiers.shift && !key.modifiers.control && !key.modifiers.alt
}

/// The key was pressed with shift and nothing else.
pub open spec fn with_shift(key: KeyEvent, code: KeyCode) -> bool {
    key.code == code && key.modifiers.shift && !key.modifiers.control && !key.modifiers.alt
}

/// The letter was pressed with control and nothing else.
pub open spec fn with_control(key: KeyEvent, letter: char) -> bool {
    key.code == KeyCode::Char(letter) && !key.modifiers.shift && key.modifiers.control
        && !key.modifiers.alt
}

/// The key bindings of a picker.
pub open spec fn binding(key: KeyEvent) -> Binding {
    if with_shift(key, KeyCode::Tab) || plain(key, KeyCode::Up) || with_control(key, 'p') {
        Binding::Step(Direction::Backward)
    } else if plain(key, KeyCode::Tab) || plain(key, KeyCode::Down) || with_control(key, 'n') {
        Binding::Step(Direction::Forward)
    } else if plain(key, KeyCode::PageDown) || with_control(key, 'd') {
        Binding::PageDown
    } else if plain(key, KeyCode::PageUp) || with_control(key, 'u') {
        Binding::PageUp
    } else if plain(key, KeyCode::Home) {
        Binding::Start
    } else if plain(key, KeyCode::End) {
        Binding::End
    } else if plain(key, KeyCode::Esc) || with_control(key, 'c') {
        Binding::Close
    } else if plain(key, KeyCode::Enter) {
        Binding::Accept(Action::Replace)
    } else if with_control(key, 's') {
        Binding::Accept(Action::HorizontalSplit)
    } else if with_control(key, 'v') {
        Binding::Accept(Action::VerticalSplit)
    } else if with_control(key, 't') {
        Binding::TogglePreview
    } else {
        Binding::Prompt
    }
}

/// Looks up what a key does in a picker.
pub fn key_binding(key: KeyEvent) -> (found: Binding)
    ensures
        found == binding(key),
{
    let shift = key.modifiers.shift && !key.modifiers.control && !key.modifiers.alt;
    let control = key.modifiers.control && !key.modifiers.shift && !key.modifiers.alt;
    let alone = !key.modifiers.control && !key.modifiers.shift && !key.modifiers.alt;
    if alone {
        match key.code {
            KeyCode::Up => Binding::Step(Direction::Backward),
            KeyCode::Tab => Binding::Step(Direction::Forward),
            KeyCode::Down => Binding::Step(Direction::Forward),
            KeyCode::PageDown => Binding::PageDown,
            KeyCode::PageUp => Binding::PageUp,
            KeyCode::Home => Binding::Start,
            KeyCode::End => Binding::End,
            KeyCode::Esc => Binding::Close,
            KeyCode::Enter => Binding::Accept(Action::Replace),
            _ => Binding::Prompt,
        }
    } else if shift && key.code == KeyCode::Tab {
        Binding::Step(Direction::Backward)
    } else if control {
        match key.code {
            KeyCode::Char('p') => Binding::Step(Direction::Backward),
            KeyCode::Char('n') => Binding::Step(Direction::Forward),
            KeyCode::Char('d') => Binding::PageDown,
            KeyCode::Char('u') => Binding::PageUp,
            KeyCode::Char('c') => Binding::Close,
            KeyCode::Char('s') => Binding::Accept(Action::HorizontalSplit),
            KeyCode::Char('v') => Binding::Accept(Action::VerticalSplit),
            KeyCode::Char('t') => Binding::TogglePreview,
            _ => Binding::Prompt,
        }
    } else {
        Binding::Prompt
    }
}

} // verus!
