use vstd::prelude::*;

use crate::args::CustomArgs;
use crate::strings::{file_name_of, spec_file_name};

verus! {

/// The coarse input-interpretation state of the application: command entry,
/// editing (with the optionally bound file path), or idle navigation.
pub enum AppState {
    Command,
    Edit(Option<String>),
    Idle,
}

impl AppState {
    /// The starting state: editing the named file when one was given on the
    /// command line, otherwise idle.
    pub fn new(args: CustomArgs) -> (s: AppState)
        ensures
            match args.file {
                Some(f) => s == AppState::Edit(Some(f)),
                None => s == AppState::Idle,
            },
    {
        if let Some(file) = args.file {
            Self::Edit(Some(file))
        } else {
            Self::Idle
        }
    }

    /// Switch to command entry.
    pub fn enter_command_mode(&mut self)
        ensures
            *final(self) == AppState::Command,
    {
        *self = Self::Command;
    }

    /// Switch to idle navigation.
    pub fn enter_idle_mode(&mut self)
        ensures
            *final(self) == AppState::Idle,
    {
        *self = Self::Idle;
    }

    /// Switch to editing, bound to the given file path if any.
    pub fn enter_edit_mode(&mut self, file: Option<String>)
        ensures
            *final(self) == AppState::Edit(file),
    {
        *self = Self::Edit(file);
    }

    /// The display name of the bound file: the part of its path after the
    /// last separator, present only while editing a named file.
    pub fn get_file_name(&self) -> (r: Option<&str>)
        ensures
            match *self {
                AppState::Edit(Some(f)) => r matches Some(name) && name@ == spec_file_name(f@),
                _ => r is None,
            },
    {
        if let Self::Edit(Some(file)) = self {
            Some(file_name_of(file.as_str()))
        } else {
            None
        }
    }

    /// The label under which the state is shown.
    pub fn display_mode(&self) -> (r: String)
        ensures
            match *self {
                AppState::Command => r@ == "Command mode"@,
                AppState::Edit(_) => r@ == "Edit"@,
                AppState::Idle => r@ == "Idle"@,
            },
    {
        match self {
            Self::Command => "Command mode".to_owned(),
            Self::Edit(_) => "Edit".to_owned(),
            Self::Idle => "Idle".to_owned(),
        }
    }
}

} // verus!
