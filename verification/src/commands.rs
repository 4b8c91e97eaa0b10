//! The reconcile and internal commands: each holds what it works on and
//! hands out what is to be done.

use vstd::prelude::*;
use crate::cli::ReconcileCommands;
use crate::config::Config;
use crate::man::{find_man, find_man_spec};
use crate::manifest::{
    declared,
    entries_of,
    get_dotfile_list,
    malformed_of,
    DotfileEntry,
    ManifestError,
    ScriptOutput,
};
use crate::reconcile::{reconcile_entry, step_for, Observed, Step};
use crate::text::{lines_of, texts};

verus! {

/// The commands for the manager's own use.
#[derive(Clone, Debug)]
pub struct CommandInternal {
    pub config: Config,
}

impl CommandInternal {
    pub fn new(config: Config) -> (command: Self)
        ensures
            command.config == config,
    {
        Self { config }
    }

    /// Watching is started by the caller; this command has nothing to decide.
    pub fn start_watcher(&self) {
    }

    /// Has nothing to decide: the page comes from `internal_find_man`.
    pub fn find_man(&self) {
    }

    /// Nothing is generated so far.
    pub fn generate(&self) {
    }
}

/// The line to print for the manual page of a command line.
pub fn internal_find_man(command_line: String) -> (page: String)
    ensures
        page@ == find_man_spec(command_line@),
{
    find_man(command_line)
}

/// Nothing is generated so far.
pub fn internal_generate() {
}

/// The reconcile commands, over the entries that the manifest declares.
#[derive(Clone, Debug)]
pub struct CommandReconcile {
    pub config: Config,
    pub dotfile_list: Vec<DotfileEntry>,
    /// The manifest lines that were skipped as malformed.
    pub skipped: Vec<String>,
}

impl CommandReconcile {
    /// Reads the manifest that the deploy script left behind. A script that
    /// ended badly is fatal: there is no command without a manifest.
    pub fn new(config: Config, output: &ScriptOutput) -> (command: Result<Self, ManifestError>)
        ensures
            command is Ok <==> output.success,
            command is Ok ==> {
                &&& command->Ok_0.config == config
                &&& declared(command->Ok_0.dotfile_list@) == entries_of(lines_of(output.stdout@))
                &&& texts(command->Ok_0.skipped@) == malformed_of(lines_of(output.stdout@))
            },
            command is Err ==> command->Err_0.stderr@ == output.stderr@,
    {
        match get_dotfile_list(output) {
            Ok(manifest) => Ok(
                Self { config, dotfile_list: manifest.entries, skipped: manifest.skipped },
            ),
            Err(error) => Err(error),
        }
    }

    /// The step for entry `index` under `verb`, from what was seen of it;
    /// `None` past the end of the list.
    pub fn step(&self, verb: ReconcileCommands, index: usize, seen: &Observed) -> (step: Option<
        Step,
    >)
        ensures
            step is Some <==> index < self.dotfile_list.len(),
            step is Some ==> step->0 == step_for(
                self.dotfile_list[index as int].source@,
                *seen,
                verb,
            ),
    {
        if index < self.dotfile_list.len() {
            Some(reconcile_entry(&self.dotfile_list[index], seen, verb))
        } else {
            None
        }
    }

    /// The status step for entry `index`: it reports and changes nothing.
    pub fn status(&self, index: usize, seen: &Observed) -> (step: Option<Step>)
        ensures
            step is Some <==> index < self.dotfile_list.len(),
            step is Some ==> step->0 == step_for(
                self.dotfile_list[index as int].source@,
                *seen,
                ReconcileCommands::Status,
            ),
    {
        self.step(ReconcileCommands::Status, index, seen)
    }

    /// The deploy step for entry `index`.
    pub fn deploy(&self, index: usize, seen: &Observed) -> (step: Option<Step>)
        ensures
            step is Some <==> index < self.dotfile_list.len(),
            step is Some ==> step->0 == step_for(
                self.dotfile_list[index as int].source@,
                *seen,
                ReconcileCommands::Deploy,
            ),
    {
        self.step(ReconcileCommands::Deploy, index, seen)
    }

    /// The undeploy step for entry `index`.
    pub fn undeploy(&self, index: usize, seen: &Observed) -> (step: Option<Step>)
        ensures
            step is Some <==> index < self.dotfile_list.len(),
            step is Some ==> step->0 == step_for(
                self.dotfile_list[index as int].source@,
                *seen,
                ReconcileCommands::Undeploy,
            ),
    {
        self.step(ReconcileCommands::Undeploy, index, seen)
    }
}

} // verus!
