use vstd::prelude::*;

use vstd::string::StringExecFns;

use crate::args::CustomArgs;
use crate::editor_state::State;
use crate::strings::{file_name_of, spec_file_name};

verus! {

/// The input-interpretation state of the editor: command entry carrying the
/// text typed so far, editing (with the optionally bound file path), or idle
/// navigation (with an optional status message).
pub enum EditorMode {
    Command(String),
    Edit(Option<String>),
    Idle(Option<String>),
}

/// What a confirmed command asks the session to do.
#[derive(Clone, Copy, PartialEq, Eq, Structural, Debug)]
pub enum CommandAction {
    Quit,
    Write,
    WriteQuit,
}

/// Why a confirmed command was rejected, or why a write command failed.
#[derive(Debug, PartialEq, Eq)]
pub enum CommandError {
    UnknownCommand,
    NotCommandMode,
    WriteFailed(String),
}

impl CommandError {
    /// The status message under which the error is reported.
    pub fn message(&self) -> (r: String)
        ensures
            match *self {
                CommandError::UnknownCommand => r@ == "no such command found"@,
                CommandError::NotCommandMode => r@ == "invalid location to evaluate a command"@,
                CommandError::WriteFailed(m) => r@ == m@,
            },
    {
        match self {
            CommandError::UnknownCommand => "no such command found".to_owned(),
            CommandError::NotCommandMode => "invalid location to evaluate a command".to_owned(),
            CommandError::WriteFailed(m) => m.clone(),
        }
    }
}

/// The fixed command set: `q`/`quit`, `w`/`write`, and `wq`; any other text
/// names no action.
pub open spec fn spec_command_action(cmd: Seq<char>) -> Option<CommandAction> {
    if cmd == "q"@ || cmd == "quit"@ {
        Some(CommandAction::Quit)
    } else if cmd == "w"@ || cmd == "write"@ {
        Some(CommandAction::Write)
    } else if cmd == "wq"@ {
        Some(CommandAction::WriteQuit)
    } else {
        None
    }
}

impl EditorMode {
    /// The starting mode: idle, with a message saying whether a file was
    /// opened.
    pub fn new(args: CustomArgs) -> (m: EditorMode)
        ensures
            args.file is Some ==> (m matches EditorMode::Idle(Some(msg)) && msg@
                == "Opened a file"@),
            args.file is None ==> (m matches EditorMode::Idle(Some(msg)) && msg@
                == "Opened untitiled file"@),
    {
        if args.file.is_some() {
            Self::Idle(Some("Opened a file".to_owned()))
        } else {
            Self::Idle(Some("Opened untitiled file".to_owned()))
        }
    }

    /// Switch to command entry with an empty command line.
    pub fn enter_command_mode(&mut self)
        ensures
            *final(self) matches EditorMode::Command(c) && c@ == Seq::<char>::empty(),
    {
        *self = Self::Command(String::new());
    }

    /// Switch to idle navigation, showing `message` if one is given.
    pub fn enter_idle_mode(&mut self, message: Option<String>)
        ensures
            *final(self) == EditorMode::Idle(message),
    {
        *self = Self::Idle(message);
    }

    /// Switch to editing, bound to the given file path if any.
    pub fn enter_edit_mode(&mut self, file: Option<String>)
        ensures
            *final(self) == EditorMode::Edit(file),
    {
        *self = Self::Edit(file);
    }

    /// Append a typed character to the command line; outside command entry a
    /// no-op.
    pub fn update_command(&mut self, ch: char)
        ensures
            (*old(self) matches EditorMode::Command(c) ==> (*final(self))
                matches EditorMode::Command(c2) && c2@ == c@.push(ch)),
            !(*old(self) is Command) ==> *final(self) == *old(self),
    {
        if let Self::Command(c) = self {
            c.push(ch);
        }
    }

    /// Erase the last character of the command line, if any; outside command
    /// entry a no-op.
    pub fn remove_from_command(&mut self)
        ensures
            (*old(self) matches EditorMode::Command(c) ==> (*final(self))
                matches EditorMode::Command(c2) && c2@ == (if c@.len() == 0 {
                c@
            } else {
                c@.drop_last()
            })),
            !(*old(self) is Command) ==> *final(self) == *old(self),
    {
        if let Self::Command(c) = self {
            c.pop();
        }
    }

    /// Decide what the accumulated command text asks for: the action it
    /// names, or the rejection it earns — unknown text, or a confirm that
    /// arrived outside command entry.
    pub fn command_action(&self) -> (r: Result<CommandAction, CommandError>)
        ensures
            match *self {
                EditorMode::Command(c) => match spec_command_action(c@) {
                    Some(a) => r == Ok::<CommandAction, CommandError>(a),
                    None => r == Err::<CommandAction, CommandError>(CommandError::UnknownCommand),
                },
                _ => r == Err::<CommandAction, CommandError>(CommandError::NotCommandMode),
            },
    {
        match self {
            EditorMode::Command(c) => {
                if *c == "q".to_owned() || *c == "quit".to_owned() {
                    Ok(CommandAction::Quit)
                } else if *c == "w".to_owned() || *c == "write".to_owned() {
                    Ok(CommandAction::Write)
                } else if *c == "wq".to_owned() {
                    Ok(CommandAction::WriteQuit)
                } else {
                    Err(CommandError::UnknownCommand)
                }
            },
            _ => Err(CommandError::NotCommandMode),
        }
    }

    /// Evaluate the confirmed command against the session. Quitting clears
    /// the session's running flag; the write commands report the outcome of
    /// the file write, which is I/O the caller performs beforehand and hands
    /// in as `write_result` (consulted only by `w`, `write` and `wq`, with a
    /// failed `wq` not quitting). The mode itself is left unchanged;
    /// switching back to idle is the caller's move.
    pub fn apply_command(&mut self, state: &mut State, write_result: Result<(), String>) -> (r:
        Result<String, CommandError>)
        ensures
            *final(self) == *old(self),
            match *old(self) {
                EditorMode::Command(c) => match spec_command_action(c@) {
                    Some(CommandAction::Quit) => (r matches Ok(m) && m@ == "exiting mini-vim"@)
                        && *final(state) == State { running: false, ..*old(state) },
                    Some(CommandAction::Write) => *final(state) == *old(state) && match write_result {
                        Ok(_) => r matches Ok(m) && m@ == "File written successfully"@,
                        Err(e) => r == Err::<String, CommandError>(CommandError::WriteFailed(e)),
                    },
                    Some(CommandAction::WriteQuit) => match write_result {
                        Ok(_) => (r matches Ok(m) && m@ == "exiting mini-vim"@) && *final(state)
                            == State { running: false, ..*old(state) },
                        Err(e) => r == Err::<String, CommandError>(CommandError::WriteFailed(e))
                            && *final(state) == *old(state),
                    },
                    None => r == Err::<String, CommandError>(CommandError::UnknownCommand)
                        && *final(state) == *old(state),
                },
                _ => r == Err::<String, CommandError>(CommandError::NotCommandMode) && *final(state)
                    == *old(state),
            },
    {
        match self.command_action() {
            Err(e) => Err(e),
            Ok(CommandAction::Quit) => {
                state.end_program();
                Ok("exiting mini-vim".to_owned())
            },
            Ok(CommandAction::Write) => match write_result {
                Ok(_) => Ok("File written successfully".to_owned()),
                Err(e) => Err(CommandError::WriteFailed(e)),
            },
            Ok(CommandAction::WriteQuit) => match write_result {
                Ok(_) => {
                    state.end_program();
                    Ok("exiting mini-vim".to_owned())
                },
                Err(e) => Err(CommandError::WriteFailed(e)),
            },
        }
    }

    /// The display name of the bound file: the part of its path after the
    /// last separator, present only while editing a named file.
    pub fn get_file_name(&self) -> (r: Option<&str>)
        ensures
            match *self {
                EditorMode::Edit(Some(f)) => r matches Some(name) && name@ == spec_file_name(f@),
                _ => r is None,
            },
    {
        if let Self::Edit(Some(file)) = self {
            Some(file_name_of(file.as_str()))
        } else {
            None
        }
    }

    /// The footer line under which the mode is shown: the command text being
    /// typed, the editing label, or the idle status message.
    pub fn display_mode(&self) -> (r: String)
        ensures
            match *self {
                EditorMode::Command(c) => r@ == "=> "@ + c@,
                EditorMode::Edit(_) => r@ == "Edit"@,
                EditorMode::Idle(Some(m)) => r@ == m@,
                EditorMode::Idle(None) => r@ == "Idle"@,
            },
    {
        match self {
            Self::Command(c) => {
                let mut display = "=> ".to_owned();
                display.append(c.as_str());
                display
            },
            Self::Edit(_) => "Edit".to_owned(),
            Self::Idle(Some(message)) => message.clone(),
            Self::Idle(None) => "Idle".to_owned(),
        }
    }
}

} // verus!
