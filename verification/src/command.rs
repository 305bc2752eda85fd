//! Shape of a command executed on a host, as handed back by the
//! connection layer: the command line, its output, its return code.

use vstd::prelude::*;

verus! {

/// Result of running one command on one host.
#[derive(Debug)]
pub struct CommandResult {
    pub cmd: String,
    pub out: String,
    pub rc: i32,
}

impl Clone for CommandResult {
    fn clone(&self) -> (r: Self)
        ensures
            r == *self,
    {
        CommandResult { cmd: self.cmd.clone(), out: self.out.clone(), rc: self.rc }
    }
}

} // verus!
