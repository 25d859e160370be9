//! The command line that starts the language server.

use vstd::prelude::*;

verus! {

/// A program to run, with its arguments and the environment variables that
/// are set for it.
#[derive(Debug, PartialEq, Eq)]
pub struct Command {
    /// The program.
    pub command: String,
    /// Its arguments, in order.
    pub args: Vec<String>,
    /// Names and values of the environment variables, in order.
    pub env: Vec<(String, String)>,
}

/// Mathematical model of a [`Command`].
pub struct CommandView {
    pub command: Seq<char>,
    pub args: Seq<Seq<char>>,
    pub env: Seq<(Seq<char>, Seq<char>)>,
}

impl View for Command {
    type V = CommandView;

    open spec fn view(&self) -> CommandView {
        CommandView {
            command: self.command@,
            args: self.args.deep_view(),
            env: self.env.deep_view(),
        }
    }
}

/// The command that starts the language server found at `path`: the entry
/// script itself, without arguments and without environment variables.
pub open spec fn server_command_spec(path: Seq<char>) -> CommandView {
    CommandView { command: path, args: Seq::empty(), env: Seq::empty() }
}

} // verus!
