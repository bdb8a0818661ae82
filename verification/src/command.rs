//! The command line that launches the server.

use vstd::prelude::*;

verus! {

/// How to launch the server: the program, its arguments in order, and the
/// environment variables to set for it.
#[derive(Debug, Clone, PartialEq, Eq)]
pub struct Command {
    /// The path of the program to run.
    pub command: String,
    /// The arguments to pass to the program.
    pub args: Vec<String>,
    /// The environment variables to set, as pairs of name and value.
    pub env: Vec<(String, String)>,
}

/// The mathematical model of a [`Command`].
pub struct CommandView {
    pub command: Seq<char>,
    pub args: Seq<Seq<char>>,
    pub env: Seq<(Seq<char>, Seq<char>)>,
}

impl View for Command {
    type V = CommandView;

    open spec fn view(&self) -> CommandView {
        CommandView {
            command: self.command@,
            args: self.args.deep_view(),
            env: self.env.deep_view(),
        }
    }
}

/// The argument that hands the access token to the server. The token is
/// appended as it is, without quoting.
pub open spec fn access_token_flag(token: Seq<char>) -> Seq<char> {
    "--access-token="@ + token
}

/// The command that runs the entrypoint with the Node binary: the arguments
/// are the entrypoint and the access-token flag, the environment is empty.
pub open spec fn launch_command(
    node_binary: Seq<char>,
    entrypoint: Seq<char>,
    token: Seq<char>,
) -> CommandView {
    CommandView {
        command: node_binary,
        args: seq![entrypoint, access_token_flag(token)],
        env: seq![],
    }
}

/// Builds the command that launches the server.
pub fn build_command(node_binary: String, entrypoint: String, token: &str) -> (r: Command)
    ensures
        r@ == launch_command(node_binary@, entrypoint@, token@),
{
    let mut flag = "--access-token=".to_owned();
    flag.append(token);
    let mut args: Vec<String> = Vec::new();
    args.push(entrypoint);
    args.push(flag);
    let env: Vec<(String, String)> = Vec::new();
    assert(args.deep_view() =~= seq![entrypoint@, access_token_flag(token@)]);
    assert(env.deep_view() =~= Seq::<(Seq<char>, Seq<char>)>::empty());
    Command { command: node_binary, args, env }
}

} // verus!
