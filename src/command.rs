//! The invocation handed to the host to start the language server.

use vstd::prelude::*;

verus! {

/// A program to run, with its arguments and extra environment.
#[derive(Clone, Debug, PartialEq, Eq)]
pub struct Invocation {
    pub command: String,
    pub args: Vec<String>,
    pub env: Vec<(String, String)>,
}

/// Runs the resolved binary with no arguments and the inherited environment.
pub fn language_server_command(binary_path: String) -> (r: Invocation)
    ensures
        r.command@ == binary_path@,
        r.args@.len() == 0,
        r.env@.len() == 0,
{
    Invocation { command: binary_path, args: Vec::new(), env: Vec::new() }
}

} // verus!
