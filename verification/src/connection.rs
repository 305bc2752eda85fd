//! The connection capability the task handle forwards command
//! execution to. Transport implementations (local shell, remote
//! session) live outside this crate; module logic only ever sees the
//! handle, never a connection.

use vstd::prelude::*;
use crate::command::CommandResult;

verus! {

/// One host's command channel. `run_command` returns the completed
/// command on success and the failing command (or transport
/// diagnostic) on error; nothing is promised of which, since the
/// outcome depends on the remote host.
pub trait Connection {
    fn run_command(&mut self, cmd: &String) -> Result<CommandResult, CommandResult>;
}

/// A connection that replays a fixed script of outcomes, newest last:
/// each command pops the last scripted outcome. Useful for driving
/// the protocol without a transport; an exhausted script reports a
/// transport-style failure.
pub struct ScriptedConnection {
    pub script: Vec<Result<CommandResult, CommandResult>>,
}

impl ScriptedConnection {
    /// A connection that will replay the given outcomes.
    pub fn new(script: Vec<Result<CommandResult, CommandResult>>) -> (c: ScriptedConnection)
        ensures
            c.script == script,
    {
        ScriptedConnection { script }
    }
}

impl Connection for ScriptedConnection {
    fn run_command(&mut self, cmd: &String) -> Result<CommandResult, CommandResult> {
        match self.script.pop() {
            Some(outcome) => outcome,
            None => Err(CommandResult { cmd: cmd.clone(), out: String::new(), rc: 1 }),
        }
    }
}

} // verus!
