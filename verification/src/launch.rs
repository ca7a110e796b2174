//! The command that starts the language server.

use vstd::prelude::*;

verus! {

/// Name under which the language server is looked for on the search path.
pub const BINARY_NAME: &'static str = "dang";

/// The one argument handed to the binary: it selects language-server mode.
pub const LSP_FLAG: &'static str = "--lsp";

/// Message of the one failure there is: the binary is not on the search path.
pub const BINARY_NOT_FOUND: &'static str = "Unable to find dang binary in PATH";

/// A process to spawn: the executable, its arguments in order, and the
/// environment variables to set for it.
#[derive(Clone, Debug, PartialEq, Eq)]
pub struct Command {
    pub command: String,
    pub args: Vec<String>,
    pub env: Vec<(String, String)>,
}

/// A [`Command`] as mathematics: every string as its sequence of characters.
pub struct CommandView {
    pub command: Seq<char>,
    pub args: Seq<Seq<char>>,
    pub env: Seq<(Seq<char>, Seq<char>)>,
}

impl View for Command {
    type V = CommandView;

    open spec fn view(&self) -> CommandView {
        CommandView {
            command: self.command@,
            args: self.args.deep_view(),
            env: self.env.deep_view(),
        }
    }
}

/// The launch of the language server from the executable at `path`: that
/// executable, the language-server flag as its only argument, and no
/// environment overrides.
pub open spec fn server_launch(path: Seq<char>) -> CommandView {
    CommandView { command: path, args: seq![LSP_FLAG@], env: Seq::empty() }
}

/// What the search for the binary leads to: its launch where it was found,
/// the fixed message where it was not.
pub open spec fn launch_outcome(found: Option<Seq<char>>) -> Result<CommandView, Seq<char>> {
    match found {
        Some(path) => Ok(server_launch(path)),
        None => Err(BINARY_NOT_FOUND@),
    }
}

/// The view of a launch result, on both sides.
pub open spec fn outcome_view(result: Result<Command, String>) -> Result<CommandView, Seq<char>> {
    match result {
        Ok(command) => Ok(command@),
        Err(message) => Err(message@),
    }
}

impl Command {
    /// The command that runs the executable at `path` as a language server.
    pub fn language_server(path: String) -> (command: Command)
        ensures
            command@ == server_launch(path@),
    {
        let mut args: Vec<String> = Vec::new();
        args.push(LSP_FLAG.to_owned());
        let env: Vec<(String, String)> = Vec::new();
        let command = Command { command: path, args, env };
        proof {
            assert(command.args.deep_view() =~= seq![LSP_FLAG@]);
            assert(command.env.deep_view() =~= Seq::empty());
        }
        command
    }
}

} // verus!
