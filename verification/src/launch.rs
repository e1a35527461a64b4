//! The outcome of launching a process.

use vstd::prelude::*;

verus! {

/// What a launch attempt reports back: whether it succeeded, a message for
/// the user, and the id of the spawned process when there is one.
#[derive(Clone, Debug, PartialEq, Eq)]
pub struct LaunchResult {
    pub success: bool,
    pub message: String,
    pub process_id: Option<u32>,
}

impl LaunchResult {
    /// The report of a launch that spawned `process_id`.
    pub fn started(message: String, process_id: u32) -> (result: LaunchResult)
        ensures
            result.success,
            result.message == message,
            result.process_id == Some(process_id),
    {
        LaunchResult { success: true, message, process_id: Some(process_id) }
    }
}

} // verus!
