//! The command surface as plain data: which subcommand was asked for, with
//! its arguments.

use vstd::prelude::*;

verus! {

/// The top-level subcommands.
#[allow(inconsistent_fields)]
#[derive(Clone, Debug)]
pub enum CliCommands {
    /// Operate on a script, chosen from a category.
    Script { category: Option<String>, command: ScriptCommands },
    /// Reconcile the dotfiles.
    Reconcile { command: ReconcileCommands },
    /// Generate executable files from all scripts.
    Generate {},
    /// Update the manager to the latest release.
    Update {},
    /// Run an internal command.
    Internal { command: InternalCommands },
}

/// What to do with a script.
#[derive(Clone, Debug)]
pub enum ScriptCommands {
    List {},
    View { glob: Option<String> },
    Edit { glob: Option<String> },
    Run { sudo: bool, glob: Option<String> },
}

/// The verb of a reconciliation: which of a scenario's three operations runs.
#[derive(Clone, Copy, Debug, PartialEq, Eq, Structural)]
pub enum ReconcileCommands {
    /// Report the state of each declared link.
    Status,
    /// Create the links that are missing.
    Deploy,
    /// Remove the links.
    Undeploy,
}

/// Commands for the manager's own use.
#[derive(Clone, Debug)]
pub enum InternalCommands {
    StartWatcher {},
    FindMan { command_line: String },
}

} // verus!
