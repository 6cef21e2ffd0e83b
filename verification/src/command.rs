//! The SET_ACTIVITY command that carries an activity to Discord.

use uuid::Uuid;
use vstd::prelude::*;

use crate::types::payloads::ActivityPayload;

verus! {

/// `Uuid::new_v4`, as text: a fresh random identifier. Nothing is stated of
/// its value, which is random.
#[verifier::external_body]
fn new_nonce() -> String {
    Uuid::new_v4().to_string()
}

/// A command that sets the activity, or clears it when there is none.
#[derive(Debug, Clone)]
pub struct ActivityCommand {
    /// The process the activity belongs to.
    pub pid: u32,
    /// The activity to show; `None` clears it.
    pub activity: Option<ActivityPayload>,
    /// A random identifier that the answer repeats.
    pub nonce: String,
}

impl ActivityCommand {
    /// The command for this activity (or for clearing it), on behalf of the
    /// process `pid`, with a fresh nonce.
    pub fn new_with(activity: Option<ActivityPayload>, pid: u32) -> (c: ActivityCommand)
        ensures
            c.pid == pid,
            c.activity == activity,
    {
        ActivityCommand { pid, activity, nonce: new_nonce() }
    }

    /// The name of the command.
    pub fn cmd(&self) -> (name: &'static str)
        ensures
            name@ == "SET_ACTIVITY"@,
    {
        "SET_ACTIVITY"
    }
}

} // verus!
