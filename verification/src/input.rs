//! Key events as plain values, and the command each one stands for.

use vstd::prelude::*;

verus! {

/// No modifier key held.
pub const MODIFIER_NONE: u8 = 0;

/// The shift key, as a bit of [`KeyEvent::modifiers`].
pub const MODIFIER_SHIFT: u8 = 1;

/// The control key, as a bit of [`KeyEvent::modifiers`].
pub const MODIFIER_CONTROL: u8 = 2;

/// The alt key, as a bit of [`KeyEvent::modifiers`].
pub const MODIFIER_ALT: u8 = 4;

/// The key that was pressed.
#[derive(Clone, Copy, Debug, PartialEq, Eq, Structural)]
pub enum KeyCode {
    /// A character key.
    Char(char),
    /// The enter key.
    Enter,
    /// Any other key.
    Other,
}

/// A key press: the key and the set of modifier keys held with it, one bit
/// per modifier.
#[derive(Clone, Copy, Debug, PartialEq, Eq, Structural)]
pub struct KeyEvent {
    pub code: KeyCode,
    pub modifiers: u8,
}

/// What a key press asks of the multiplexer.
#[derive(Clone, Copy, Debug, PartialEq, Eq, Structural)]
pub enum Command {
    /// Leave the event loop.
    Quit,
    /// Move the focus to the next panel.
    SwitchPanel,
    /// Open a new note panel.
    NewPanel,
    /// Submit: run the payload on a host panel, acknowledge on a note panel.
    Submit,
    /// A character typed into the active panel.
    Insert(char),
    /// Nothing.
    Ignore,
}

/// The command of a key press. Control alone with `q`, `c` or `n` quits,
/// switches or opens a panel; enter submits whatever the modifiers; any
/// other character key is typed; the rest is ignored.
pub open spec fn command_of(key: KeyEvent) -> Command {
    match key.code {
        KeyCode::Char(c) => {
            if key.modifiers == MODIFIER_CONTROL && c == 'q' {
                Command::Quit
            } else if key.modifiers == MODIFIER_CONTROL && c == 'c' {
                Command::SwitchPanel
            } else if key.modifiers == MODIFIER_CONTROL && c == 'n' {
                Command::NewPanel
            } else {
                Command::Insert(c)
            }
        },
        KeyCode::Enter => Command::Submit,
        KeyCode::Other => Command::Ignore,
    }
}

/// Maps a key press to its command.
pub fn dispatch(key: KeyEvent) -> (command: Command)
    ensures
        command == command_of(key),
{
    match key.code {
        KeyCode::Char(c) => {
            if key.modifiers == MODIFIER_CONTROL && c == 'q' {
                Command::Quit
            } else if key.modifiers == MODIFIER_CONTROL && c == 'c' {
                Command::SwitchPanel
            } else if key.modifiers == MODIFIER_CONTROL && c == 'n' {
                Command::NewPanel
            } else {
                Command::Insert(c)
            }
        },
        KeyCode::Enter => Command::Submit,
        KeyCode::Other => Command::Ignore,
    }
}

} // verus!
