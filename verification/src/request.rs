//! Request side of the status protocol: the five phases of a task's
//! lifecycle against one host.

use vstd::prelude::*;

verus! {

/// The phase of a task's lifecycle that a request belongs to.
///
/// `Validate` checks a task's parameters before any host work;
/// `Query` detects drift between the host and policy; `Create`,
/// `Modify` and `Remove` reconcile drift that the query phase found.
#[derive(Clone, Copy, PartialEq, Eq, Structural, Debug)]
pub enum TaskRequestType {
    Validate,
    Query,
    Create,
    Modify,
    Remove,
}

/// One request handed to module logic: the phase it runs in.
#[derive(Clone, Copy, PartialEq, Eq, Structural, Debug)]
pub struct TaskRequest {
    pub request_type: TaskRequestType,
}

impl TaskRequest {
    /// Build a request for the given phase.
    pub fn new(request_type: TaskRequestType) -> (r: Self)
        ensures
            r.request_type == request_type,
    {
        TaskRequest { request_type }
    }
}

} // verus!
