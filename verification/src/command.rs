//! The command line that launches an installed entry script.

use vstd::prelude::*;
use crate::layout::{absolute_path, expected_path, joined, ServerMode};

verus! {

/// A process to start: the program, its arguments in order, and the
/// environment variables to set for it.
#[derive(Debug, PartialEq, Eq)]
pub struct LaunchCommand {
    pub program: String,
    pub args: Vec<String>,
    pub env: Vec<(String, String)>,
}

/// A [`LaunchCommand`] with its texts as sequences of characters.
pub struct LaunchCommandView {
    pub program: Seq<char>,
    pub args: Seq<Seq<char>>,
    pub env: Seq<(Seq<char>, Seq<char>)>,
}

impl View for LaunchCommand {
    type V = LaunchCommandView;

    open spec fn view(&self) -> LaunchCommandView {
        LaunchCommandView {
            program: self.program@,
            args: Seq::new(self.args@.len(), |i: int| self.args@[i]@),
            env: Seq::new(self.env@.len(), |i: int| (self.env@[i].0@, self.env@[i].1@)),
        }
    }
}

/// The command that runs `script` with `program` over standard input and
/// output: the script's absolute form under `root` and the flag `--stdio` are
/// the only arguments, and no environment variable is set.
pub open spec fn stdio_launch(program: Seq<char>, root: Seq<char>, script: Seq<char>) -> LaunchCommandView {
    LaunchCommandView {
        program,
        args: seq![joined(root, script), "--stdio"@],
        env: Seq::empty(),
    }
}

/// Builds the command that launches `script`, a path as a resolution returned
/// it, with the runtime `program`. `root` is the directory that the path is
/// relative to.
pub fn launch_command(program: String, root: &str, script: &str) -> (command: LaunchCommand)
    ensures
        command@ == stdio_launch(program@, root@, script@),
{
    let mut args: Vec<String> = Vec::new();
    args.push(absolute_path(root, script));
    args.push("--stdio".to_owned());
    let command = LaunchCommand { program, args, env: Vec::new() };
    assert(command@.args =~= seq![joined(root@, script@), "--stdio"@]);
    assert(command@.env =~= Seq::empty());
    command
}

/// The command that starts the language server installed under `root`.
pub fn language_server_command(program: String, root: &str) -> (command: LaunchCommand)
    ensures
        command@ == stdio_launch(program@, root@, expected_path(ServerMode::Lsp)),
{
    launch_command(program, root, ServerMode::Lsp.expected_path())
}

/// The command that starts the context server installed under `root`. It is
/// the same whether or not anything has been resolved before.
pub fn context_server_command(program: String, root: &str) -> (command: LaunchCommand)
    ensures
        command@ == stdio_launch(program@, root@, expected_path(ServerMode::ContextServer)),
{
    launch_command(program, root, ServerMode::ContextServer.expected_path())
}

} // verus!
