//! Keys to events: what a key press asks of the application in each view.

pub mod views;
pub mod lists;
pub mod explorer;
pub mod input;

use vstd::prelude::*;
use crate::event::AppEvent;
use crate::keymap::{control, no_mods, shift, KeyCode, KeyModifiers};
use crate::text::{chars_of, push_char, slice_chars, string_of};

verus! {

/// Whether a key press is reported as a press, an auto-repeat or a release.
#[derive(Clone, Copy, Debug, PartialEq, Eq, Structural)]
pub enum KeyEventKind {
    Press,
    Repeat,
    Release,
}

/// A key press as the terminal reports it.
#[derive(Clone, Copy, Debug, PartialEq, Eq, Structural)]
pub struct KeyEvent {
    pub code: KeyCode,
    pub modifiers: KeyModifiers,
    pub kind: KeyEventKind,
}

/// Whether the key erases the last character of a text input (Backspace, or
/// Ctrl+H).
pub open spec fn is_erase(code: KeyCode, mods: KeyModifiers) -> bool {
    code == KeyCode::Backspace || (code == KeyCode::Char('h') && mods == control())
}

/// The character the key types into a text input: a character key with no
/// modifier but Shift.
pub open spec fn typed(code: KeyCode, mods: KeyModifiers) -> Option<char> {
    match code {
        KeyCode::Char(c) => if mods == no_mods() || mods == shift() { Some(c) } else { None },
        _ => None,
    }
}

/// `t` without its last character.
pub open spec fn erased(t: Seq<char>) -> Seq<char> {
    if t.len() > 0 { t.drop_last() } else { t }
}

/// The text of an input after the key, when the key erases or types.
pub open spec fn edited(code: KeyCode, mods: KeyModifiers, t: Seq<char>) -> Option<Seq<char>> {
    if is_erase(code, mods) {
        Some(erased(t))
    } else {
        match typed(code, mods) {
            Some(c) => Some(t.push(c)),
            None => None,
        }
    }
}

/// The text of an input after the key, when the key erases or types (see
/// [`edited`]).
pub fn edit_text(code: KeyCode, mods: KeyModifiers, t: &String) -> (r: Option<String>)
    ensures
        (match r { Some(x) => Some(x@), None => None }) == edited(code, mods, t@),
{
    if code == KeyCode::Backspace || (code == KeyCode::Char('h') && mods == KeyModifiers::control()) {
        let cs = chars_of(t.as_str());
        if cs.len() > 0 {
            let head = slice_chars(&cs, 0, cs.len() - 1);
            assert(head@ =~= t@.drop_last());
            return Some(string_of(head.as_slice()));
        }
        return Some(t.clone());
    }
    match code {
        KeyCode::Char(c) => {
            if mods == KeyModifiers::none() || mods == KeyModifiers::shift() {
                let mut out = t.clone();
                push_char(&mut out, c);
                Some(out)
            } else {
                None
            }
        }
        _ => None,
    }
}

/// What a key does in a list's filter input.
#[derive(Debug)]
pub enum FilterAction {
    /// The filter text becomes this.
    Update(String),
    /// The filter is cleared.
    Clear,
    /// The input closes, moving the cursor to the row given, if any.
    Submit(Option<usize>),
}

/// What a key does in a filter input holding `filter`, with the cursor on
/// row `selection` of `max` rows: erase or type, Esc clears, Enter closes,
/// Down and Up close and move the cursor.
pub open spec fn filter_action(code: KeyCode, mods: KeyModifiers, filter: Seq<char>, selection: usize, max: usize, r: Option<FilterAction>) -> bool {
    if is_erase(code, mods) {
        r matches Some(FilterAction::Update(q)) && q@ == erased(filter)
    } else if code == KeyCode::Esc {
        r matches Some(FilterAction::Clear)
    } else if code == KeyCode::Enter {
        r matches Some(FilterAction::Submit(None))
    } else if code == KeyCode::Down {
        let last = if max > 0 { max - 1 } else { 0 };
        r matches Some(FilterAction::Submit(Some(n))) && n == (if selection + 1 < last { selection + 1 } else { last })
    } else if code == KeyCode::Up {
        r matches Some(FilterAction::Submit(Some(n))) && n == (if selection > 0 { selection - 1 } else { 0 })
    } else {
        match typed(code, mods) {
            Some(c) => r matches Some(FilterAction::Update(q)) && q@ == filter.push(c),
            None => r is None,
        }
    }
}

/// What a key does in a filter input (see [`filter_action`]).
pub fn handle_filter_input(key: KeyEvent, current_filter: &str, current_selection: usize, max_selection: usize) -> (r: Option<FilterAction>)
    ensures
        filter_action(key.code, key.modifiers, current_filter@, current_selection, max_selection, r),
{
    let code = key.code;
    let mods = key.modifiers;
    let text = crate::text::owned(current_filter);
    if code == KeyCode::Backspace || (code == KeyCode::Char('h') && mods == KeyModifiers::control()) {
        return match edit_text(code, mods, &text) {
            Some(q) => Some(FilterAction::Update(q)),
            None => None,
        };
    }
    if code == KeyCode::Esc {
        return Some(FilterAction::Clear);
    }
    if code == KeyCode::Enter {
        return Some(FilterAction::Submit(None));
    }
    if code == KeyCode::Down {
        let last = if max_selection > 0 { max_selection - 1 } else { 0 };
        let next = if current_selection < last && current_selection + 1 < last { current_selection + 1 } else { last };
        return Some(FilterAction::Submit(Some(next)));
    }
    if code == KeyCode::Up {
        let prev = if current_selection > 0 { current_selection - 1 } else { 0 };
        return Some(FilterAction::Submit(Some(prev)));
    }
    match edit_text(code, mods, &text) {
        Some(q) => Some(FilterAction::Update(q)),
        None => None,
    }
}

/// What a key press leads to: an event for the reducers, or text to put on
/// the clipboard (with the message to show once it is there).
#[derive(Debug)]
pub enum KeyResult {
    Event(AppEvent),
    Copy { value: String, copied: String },
}

/// The actions of the few keys every view understands the same way.
#[derive(Clone, Copy, Debug, PartialEq, Eq, Structural)]
pub enum Action {
    Quit,
    Back,
    ShowHelp,
}

/// The action of a key everywhere: 'q' quits, '?' shows the help, Esc goes
/// back.
pub open spec fn global_action_of(code: KeyCode) -> Option<Action> {
    if code == KeyCode::Char('q') {
        Some(Action::Quit)
    } else if code == KeyCode::Char('?') {
        Some(Action::ShowHelp)
    } else if code == KeyCode::Esc {
        Some(Action::Back)
    } else {
        None
    }
}

/// The action of a key everywhere (see [`global_action_of`]).
pub fn global_action(code: KeyCode) -> (r: Option<Action>)
    ensures
        r == global_action_of(code),
{
    match code {
        KeyCode::Char('q') => Some(Action::Quit),
        KeyCode::Char('?') => Some(Action::ShowHelp),
        KeyCode::Esc => Some(Action::Back),
        _ => None,
    }
}

} // verus!
