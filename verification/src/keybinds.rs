//! The keymap: which key press asks for which action.
use vstd::prelude::*;

verus! {

/// The keys the keymap tells apart; every other key is `Other`.
#[derive(Debug, Clone, Copy, PartialEq, Eq, Structural)]
pub enum KeyCode {
    Char(char),
    Left,
    Right,
    Up,
    Down,
    Enter,
    Esc,
    Other,
}

/// A key press: the key and whether Control was held.
#[derive(Debug, Clone, Copy, PartialEq, Eq, Structural)]
pub struct KeyEvent {
    pub code: KeyCode,
    pub ctrl: bool,
}

#[derive(Debug, Clone, Copy, PartialEq, Eq, Structural)]
pub enum Action {
    Quit,
    Help,
    Switch(usize),
    Up,
    Down,
    Left,
    Right,
    Enter,
    Escape,
    Search,
    Filter,
    SubjectKindTask,
    SubjectKindRequirement,
    Refresh,
    Noop,
}

/// The action of a single key press (the `t` prefix is handled by the
/// application state, so `t` alone asks for nothing here).
pub open spec fn action_for(key: KeyEvent) -> Action {
    if key.ctrl && key.code == KeyCode::Char('c') {
        Action::Quit
    } else {
        match key.code {
            KeyCode::Char(c) => if c == 'q' {
                Action::Quit
            } else if c == '?' {
                Action::Help
            } else if '1' <= c <= '7' {
                Action::Switch((c as int - '1' as int) as usize)
            } else if c == 'h' {
                Action::Left
            } else if c == 'j' {
                Action::Down
            } else if c == 'k' {
                Action::Up
            } else if c == 'l' {
                Action::Right
            } else if c == 'f' {
                Action::Filter
            } else if c == 'r' {
                Action::Refresh
            } else {
                Action::Noop
            },
            KeyCode::Left => Action::Left,
            KeyCode::Down => Action::Down,
            KeyCode::Up => Action::Up,
            KeyCode::Right => Action::Right,
            _ => Action::Noop,
        }
    }
}

/// Translates a key press into an action.
pub fn translate(key: KeyEvent) -> (a: Action)
    ensures
        a == action_for(key),
{
    if key.ctrl {
        if let KeyCode::Char(c) = key.code {
            if c == 'c' {
                return Action::Quit;
            }
        }
    }
    match key.code {
        KeyCode::Char(c) => {
            if c == 'q' {
                Action::Quit
            } else if c == '?' {
                Action::Help
            } else if '1' <= c && c <= '7' {
                let code: u32 = c as u32;
                Action::Switch((code - 49) as usize)
            } else if c == 'h' {
                Action::Left
            } else if c == 'j' {
                Action::Down
            } else if c == 'k' {
                Action::Up
            } else if c == 'l' {
                Action::Right
            } else if c == 'f' {
                Action::Filter
            } else if c == 'r' {
                Action::Refresh
            } else {
                Action::Noop
            }
        },
        KeyCode::Left => Action::Left,
        KeyCode::Down => Action::Down,
        KeyCode::Up => Action::Up,
        KeyCode::Right => Action::Right,
        _ => Action::Noop,
    }
}

/// The action of the key pressed after the `t` prefix.
pub open spec fn action_after_t(key: KeyEvent) -> Option<Action> {
    if key.code == KeyCode::Char('k') {
        Some(Action::SubjectKindTask)
    } else if key.code == KeyCode::Char('r') {
        Some(Action::SubjectKindRequirement)
    } else {
        None
    }
}

/// Second key of the two-key `t` prefix: `k` picks tasks, `r` requirements.
pub fn translate_after_t(key: KeyEvent) -> (a: Option<Action>)
    ensures
        a == action_after_t(key),
{
    match key.code {
        KeyCode::Char(c) => {
            if c == 'k' {
                Some(Action::SubjectKindTask)
            } else if c == 'r' {
                Some(Action::SubjectKindRequirement)
            } else {
                None
            }
        },
        _ => None,
    }
}

/// Law: each digit key `1`..`7` switches to the view of index digit - 1,
/// whatever modifiers are held.
pub proof fn lemma_digit_keys_switch(c: char, ctrl: bool)
    requires
        '1' <= c <= '7',
    ensures
        action_for(KeyEvent { code: KeyCode::Char(c), ctrl }) == Action::Switch(
            (c as int - 49) as usize,
        ),
        0 <= c as int - 49 < 7,
{
}

} // verus!
