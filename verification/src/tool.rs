//! The command-line tool that prompts are sent to.

use vstd::prelude::*;

verus! {

/// What a [`Tool`] stands for.
pub struct ToolView {
    pub command: Seq<char>,
    pub name: Seq<char>,
}

/// A command-line tool: the name of its executable, to be found on the
/// search path, and the name under which messages speak of it.
#[derive(Debug, Clone, PartialEq, Eq)]
pub struct Tool {
    command: String,
    name: String,
}

impl View for Tool {
    type V = ToolView;

    closed spec fn view(&self) -> ToolView {
        ToolView { command: self.command@, name: self.name@ }
    }
}

impl Tool {
    pub fn new(command: String, name: String) -> (tool: Self)
        ensures
            tool@ == (ToolView { command: command@, name: name@ }),
    {
        Tool { command, name }
    }

    /// The name of the executable.
    pub fn command(&self) -> (command: &String)
        ensures
            command@ == self@.command,
    {
        &self.command
    }

    /// The name for messages.
    pub fn name(&self) -> (name: &String)
        ensures
            name@ == self@.name,
    {
        &self.name
    }
}

} // verus!
