//! Views, commands, and the key-binding table that maps a pressed key
//! to a command, depending on the active view.

use vstd::prelude::*;

verus! {

/// Which part of the interface is active.
#[derive(Clone, Copy, Debug, PartialEq, Eq, Structural)]
pub enum View {
    List,
    Editor,
    Preview,
    Rename,
    LivePreview,
    DeleteConfirm,
}

/// A command the interface can execute.
#[derive(Clone, Copy, Debug, PartialEq, Eq, Structural)]
pub enum Command {
    Quit,
    NextNote,
    PreviousNote,
    SwitchView(View),
    NewNote,
    SaveNote,
    DeleteNote,
    ScrollDown,
    ScrollUp,
    RenameNote,
    SubmitRename,
    CancelRename,
    MoveNoteUp,
    MoveNoteDown,
}

/// The keys the binding table distinguishes.
#[derive(Clone, Copy, Debug, PartialEq, Eq, Structural)]
pub enum Key {
    Char(char),
    Enter,
    Esc,
    Backspace,
    Up,
    Down,
    Other,
}

/// The modifier held with the key.
#[derive(Clone, Copy, Debug, PartialEq, Eq, Structural)]
pub enum Mods {
    Plain,
    Control,
    Alt,
    Other,
}

/// One key press: the key and its modifier.
#[derive(Clone, Copy, Debug, PartialEq, Eq, Structural)]
pub struct KeyPress {
    pub code: Key,
    pub mods: Mods,
}

/// The key-binding table. In the delete-confirmation view only enter
/// (confirm) and escape (cancel) mean anything; everywhere else the
/// control chords drive the interface, alt with the arrows reorders
/// notes, and enter or escape submit or cancel a rename.
pub open spec fn spec_key_to_command(view: View, key: KeyPress) -> Option<Command> {
    if view == View::DeleteConfirm {
        match key.code {
            Key::Enter => Some(Command::DeleteNote),
            Key::Esc => Some(Command::CancelRename),
            _ => None,
        }
    } else if key.mods == Mods::Control {
        match key.code {
            Key::Char(c) => {
                if c == 'q' {
                    Some(Command::Quit)
                } else if c == 'e' {
                    Some(Command::SwitchView(View::Editor))
                } else if c == 'l' {
                    Some(Command::SwitchView(View::LivePreview))
                } else if c == 'p' {
                    Some(Command::SwitchView(View::Preview))
                } else if c == 'n' {
                    Some(Command::NewNote)
                } else if c == 's' {
                    Some(Command::SaveNote)
                } else if c == 'd' {
                    Some(Command::DeleteNote)
                } else if c == 'j' {
                    Some(Command::ScrollDown)
                } else if c == 'k' {
                    Some(Command::ScrollUp)
                } else if c == 'r' {
                    Some(Command::RenameNote)
                } else {
                    None
                }
            },
            Key::Down => Some(Command::NextNote),
            Key::Up => Some(Command::PreviousNote),
            _ => None,
        }
    } else if key.mods == Mods::Alt {
        match key.code {
            Key::Up => Some(Command::MoveNoteUp),
            Key::Down => Some(Command::MoveNoteDown),
            _ => None,
        }
    } else if key.mods == Mods::Plain {
        match key.code {
            Key::Enter => if view == View::Rename {
                Some(Command::SubmitRename)
            } else {
                None
            },
            Key::Esc => if view == View::Rename {
                Some(Command::CancelRename)
            } else {
                None
            },
            _ => None,
        }
    } else {
        None
    }
}

/// Maps a key press to the command it triggers in the given view.
#[verifier::when_used_as_spec(spec_key_to_command)]
pub fn key_to_command(view: View, key: KeyPress) -> (c: Option<Command>)
    ensures
        c == spec_key_to_command(view, key),
{
    if view == View::DeleteConfirm {
        match key.code {
            Key::Enter => Some(Command::DeleteNote),
            Key::Esc => Some(Command::CancelRename),
            _ => None,
        }
    } else if key.mods == Mods::Control {
        match key.code {
            Key::Char(c) => {
                if c == 'q' {
                    Some(Command::Quit)
                } else if c == 'e' {
                    Some(Command::SwitchView(View::Editor))
                } else if c == 'l' {
                    Some(Command::SwitchView(View::LivePreview))
                } else if c == 'p' {
                    Some(Command::SwitchView(View::Preview))
                } else if c == 'n' {
                    Some(Command::NewNote)
                } else if c == 's' {
                    Some(Command::SaveNote)
                } else if c == 'd' {
                    Some(Command::DeleteNote)
                } else if c == 'j' {
                    Some(Command::ScrollDown)
                } else if c == 'k' {
                    Some(Command::ScrollUp)
                } else if c == 'r' {
                    Some(Command::RenameNote)
                } else {
                    None
                }
            },
            Key::Down => Some(Command::NextNote),
            Key::Up => Some(Command::PreviousNote),
            _ => None,
        }
    } else if key.mods == Mods::Alt {
        match key.code {
            Key::Up => Some(Command::MoveNoteUp),
            Key::Down => Some(Command::MoveNoteDown),
            _ => None,
        }
    } else if key.mods == Mods::Plain {
        match key.code {
            Key::Enter => if view == View::Rename {
                Some(Command::SubmitRename)
            } else {
                None
            },
            Key::Esc => if view == View::Rename {
                Some(Command::CancelRename)
            } else {
                None
            },
            _ => None,
        }
    } else {
        None
    }
}

} // verus!
