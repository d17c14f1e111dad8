//! Script modules: how a command is run and the label module's text.
use vstd::prelude::*;

use crate::text::owned;

verus! {

/// How a script runs: polled at an interval, or watched for output.
#[derive(Debug, Clone, Copy, PartialEq, Eq, Structural)]
pub enum ScriptMode {
    Poll,
    Watch,
}

/// A command to run, how, and (when polled) every how many milliseconds.
#[derive(Debug, Clone)]
pub struct Script {
    pub mode: ScriptMode,
    pub cmd: String,
    pub interval: u64,
}

/// The script module's configuration.
#[derive(Debug, Clone)]
pub struct ScriptModule {
    /// Path to the script on disk.
    pub cmd: String,
    /// Script execution mode.
    pub mode: ScriptMode,
    /// Time in milliseconds between executions.
    pub interval: u64,
}

impl ScriptModule {
    /// No command, polled every five seconds.
    pub fn default() -> (r: ScriptModule)
        ensures
            r.cmd@ == ""@,
            r.mode == ScriptMode::Poll,
            r.interval == 5000,
    {
        ScriptModule { cmd: owned(""), mode: ScriptMode::Poll, interval: 5000 }
    }

    /// The script the module runs.
    pub fn to_script(&self) -> (r: Script)
        ensures
            r.mode == self.mode,
            r.cmd@ == self.cmd@,
            r.interval == self.interval,
    {
        Script { mode: self.mode, cmd: self.cmd.clone(), interval: self.interval }
    }
}

/// The label module's configuration: the text it shows, which may hold
/// dynamic parts.
#[derive(Debug, Clone)]
pub struct LabelModule {
    pub label: String,
}

} // verus!
