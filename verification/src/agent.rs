//! Agent-server settings and agent-UI helper types.

use vstd::prelude::*;

verus! {

/// How to launch an external agent server.
#[derive(Debug, PartialEq, Eq, Clone)]
pub struct AgentServerCommand {
    pub path: String,
    pub args: Vec<String>,
}

/// Settings for every configured agent server. No fields are defined yet.
#[derive(Default, Clone, Debug, PartialEq, Eq, Structural)]
pub struct AllAgentServersSettings {}

/// Settings for one configured agent server.
#[derive(Debug, PartialEq, Eq, Clone)]
pub struct AgentServerSettings {
    pub command: AgentServerCommand,
}

/// Debug only: used for exercising various account states.
#[derive(Clone, Copy, Debug, PartialEq, Eq, Structural)]
pub struct DebugAccountState {
    pub enabled: bool,
}

impl DebugAccountState {
    pub fn enabled(&self) -> (r: bool)
        ensures
            r == self.enabled,
    {
        self.enabled
    }

    pub fn set_enabled(&mut self, enabled: bool)
        ensures
            *final(self) == (DebugAccountState { enabled }),
    {
        self.enabled = enabled;
    }

    pub fn get_global(global: &GlobalDebugAccountState) -> (r: &DebugAccountState)
        ensures
            *r == global.0,
    {
        &global.0
    }
}

impl Default for DebugAccountState {
    fn default() -> (r: Self)
        ensures
            !r.enabled,
    {
        DebugAccountState { enabled: false }
    }
}

/// The process-wide debug account state.
#[derive(Clone, Copy, Debug, PartialEq, Eq, Structural)]
pub struct GlobalDebugAccountState(pub DebugAccountState);

/// Access to the debug account state from whatever context carries it.
pub trait DebugAccount {
    fn debug_account(&self) -> &DebugAccountState;
}

impl DebugAccount for GlobalDebugAccountState {
    fn debug_account(&self) -> (r: &DebugAccountState) {
        &self.0
    }
}

/// What the terminal code generator reports.
#[derive(Copy, Clone, Debug, PartialEq, Eq, Structural)]
pub enum CodegenEvent {
    Finished,
}

} // verus!
