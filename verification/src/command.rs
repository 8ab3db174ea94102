//! What the caller asks for: a command to run as it stands, or a theme to
//! switch to, which is a command too.

use crate::wire::{request, request_bytes};
use vstd::prelude::*;
use vstd::string::*;

verus! {

/// The two modes of operation.
#[derive(Debug, PartialEq, Eq)]
pub enum Mode {
    /// Run `command` as it stands.
    Exec { command: String },
    /// Switch to the colour scheme `name`.
    Theme { name: String },
}

/// The command that switches to the theme `name`: the word `colorscheme`, one
/// space, and the name as given.
pub open spec fn theme_text(name: Seq<char>) -> Seq<char> {
    "colorscheme "@ + name
}

/// Turns a theme name into the command that selects it. The name is neither
/// trimmed nor escaped.
pub fn theme_command(name: &str) -> (command: String)
    ensures
        command@ == theme_text(name@),
{
    let mut command = String::from_str("colorscheme ");
    command.append(name);
    command
}

impl Mode {
    /// The command this mode sends.
    pub open spec fn text(self) -> Seq<char> {
        match self {
            Mode::Exec { command } => command@,
            Mode::Theme { name } => theme_text(name@),
        }
    }

    /// The command this mode sends, as a string.
    pub fn command(&self) -> (command: String)
        ensures
            command@ == self.text(),
    {
        match self {
            Mode::Exec { command } => command.clone(),
            Mode::Theme { name } => theme_command(name.as_str()),
        }
    }

    /// The call message for this mode.
    pub fn message(&self) -> (bytes: Vec<u8>)
        ensures
            bytes@ == request_bytes(self.text()),
    {
        let command = self.command();
        request(command.as_str())
    }
}

/// Switching to a theme sends the same bytes as running the `colorscheme`
/// command for it by hand.
pub proof fn theme_is_exec(theme: Mode, exec: Mode)
    requires
        theme is Theme,
        exec is Exec,
        exec->command@ == "colorscheme "@ + theme->name@,
    ensures
        request_bytes(theme.text()) == request_bytes(exec.text()),
{
}

} // verus!
