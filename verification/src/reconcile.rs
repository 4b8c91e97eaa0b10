//! The reconciliation engine: a table from the kinds of a declared pair to
//! what each verb does with it, and the step that the table yields for one
//! entry once its two paths have been looked at.

use vstd::prelude::*;
use vstd::string::StringExecFns;
use crate::cli::ReconcileCommands;
use crate::kind::{classify, classify_spec, PathKind, PathProbe};
use crate::manifest::DotfileEntry;
use crate::path::{same_path, same_path_spec};

verus! {

/// What a scenario amounts to, before the link itself has been read.
#[derive(Clone, Copy, Debug, PartialEq, Eq, Structural)]
pub enum Finding {
    /// Nothing stands at the source, so there is nothing to link to.
    SourceMissing,
    /// The source is there and the target is free.
    NotDeployed,
    /// The target is a link; where it leads decides the rest.
    Linked,
    /// The target is a real file or directory.
    Conflict,
}

/// What a verb does to the target of one entry.
#[derive(Clone, Copy, Debug, PartialEq, Eq, Structural)]
pub enum Operation {
    /// Leave the filesystem as it is.
    Nothing,
    /// Create the missing parent directories, then the link at the target.
    CreateLink,
    /// Remove the link at the target.
    RemoveLink,
    /// The target holds real data: touch nothing and report the conflict.
    Refuse,
}

/// The three operations bound to one scenario.
#[derive(Clone, Copy, Debug, PartialEq, Eq, Structural)]
pub struct Reconciler {
    pub status: Finding,
    pub deploy: Operation,
    pub undeploy: Operation,
}

/// The scenario table: one `Reconciler` for each pair of kinds, source first.
#[derive(Clone, Copy, Debug, PartialEq, Eq, Structural)]
pub struct Reconcilers {
    pub symlink_to_symlink: Reconciler,
    pub symlink_to_file: Reconciler,
    pub symlink_to_dir: Reconciler,
    pub symlink_to_null: Reconciler,
    pub file_to_symlink: Reconciler,
    pub file_to_file: Reconciler,
    pub file_to_dir: Reconciler,
    pub file_to_null: Reconciler,
    pub dir_to_symlink: Reconciler,
    pub dir_to_file: Reconciler,
    pub dir_to_dir: Reconciler,
    pub dir_to_null: Reconciler,
    pub null_to_symlink: Reconciler,
    pub null_to_file: Reconciler,
    pub null_to_dir: Reconciler,
    pub null_to_null: Reconciler,
}

/// What `status` finds for a pair of kinds.
pub open spec fn finding_for(source: PathKind, target: PathKind) -> Finding {
    if source == PathKind::Missing {
        Finding::SourceMissing
    } else {
        match target {
            PathKind::Missing => Finding::NotDeployed,
            PathKind::Symlink => Finding::Linked,
            PathKind::File | PathKind::Directory => Finding::Conflict,
        }
    }
}

/// What `deploy` does for a pair of kinds: it creates a link only where the
/// source is there and the target is free, and refuses where the target is a
/// real file or directory.
pub open spec fn deploy_for(source: PathKind, target: PathKind) -> Operation {
    if source == PathKind::Missing {
        Operation::Nothing
    } else {
        match target {
            PathKind::Missing => Operation::CreateLink,
            PathKind::Symlink => Operation::Nothing,
            PathKind::File | PathKind::Directory => Operation::Refuse,
        }
    }
}

/// What `undeploy` does for a pair of kinds: the target alone decides. Only a
/// link is ever removed.
pub open spec fn undeploy_for(source: PathKind, target: PathKind) -> Operation {
    match target {
        PathKind::Symlink => Operation::RemoveLink,
        PathKind::Missing => Operation::Nothing,
        PathKind::File | PathKind::Directory => Operation::Refuse,
    }
}

/// The policy for one scenario, as the table must hold it.
pub open spec fn policy(source: PathKind, target: PathKind) -> Reconciler {
    Reconciler {
        status: finding_for(source, target),
        deploy: deploy_for(source, target),
        undeploy: undeploy_for(source, target),
    }
}

impl Reconciler {
    /// The operation that `verb` selects; `status` never changes anything.
    pub open spec fn operation_spec(self, verb: ReconcileCommands) -> Operation {
        match verb {
            ReconcileCommands::Status => Operation::Nothing,
            ReconcileCommands::Deploy => self.deploy,
            ReconcileCommands::Undeploy => self.undeploy,
        }
    }

    /// Selects the operation for `verb`.
    pub fn operation(&self, verb: ReconcileCommands) -> (op: Operation)
        ensures
            op == self.operation_spec(verb),
    {
        match verb {
            ReconcileCommands::Status => Operation::Nothing,
            ReconcileCommands::Deploy => self.deploy,
            ReconcileCommands::Undeploy => self.undeploy,
        }
    }
}

impl Reconcilers {
    /// The cell of the table for a pair of kinds.
    pub open spec fn cell(self, source: PathKind, target: PathKind) -> Reconciler {
        match (source, target) {
            (PathKind::Symlink, PathKind::Symlink) => self.symlink_to_symlink,
            (PathKind::Symlink, PathKind::File) => self.symlink_to_file,
            (PathKind::Symlink, PathKind::Directory) => self.symlink_to_dir,
            (PathKind::Symlink, PathKind::Missing) => self.symlink_to_null,
            (PathKind::File, PathKind::Symlink) => self.file_to_symlink,
            (PathKind::File, PathKind::File) => self.file_to_file,
            (PathKind::File, PathKind::Directory) => self.file_to_dir,
            (PathKind::File, PathKind::Missing) => self.file_to_null,
            (PathKind::Directory, PathKind::Symlink) => self.dir_to_symlink,
            (PathKind::Directory, PathKind::File) => self.dir_to_file,
            (PathKind::Directory, PathKind::Directory) => self.dir_to_dir,
            (PathKind::Directory, PathKind::Missing) => self.dir_to_null,
            (PathKind::Missing, PathKind::Symlink) => self.null_to_symlink,
            (PathKind::Missing, PathKind::File) => self.null_to_file,
            (PathKind::Missing, PathKind::Directory) => self.null_to_dir,
            (PathKind::Missing, PathKind::Missing) => self.null_to_null,
        }
    }

    /// The table follows the policy in every one of its sixteen cells.
    pub open spec fn follows_policy(self) -> bool {
        forall|source: PathKind, target: PathKind|
            #[trigger] self.cell(source, target) == policy(source, target)
    }

    /// The table of the policy, written out cell by cell.
    pub fn new() -> (table: Reconcilers)
        ensures
            table.follows_policy(),
    {
        let source_missing = Reconciler {
            status: Finding::SourceMissing,
            deploy: Operation::Nothing,
            undeploy: Operation::Nothing,
        };
        let source_missing_link = Reconciler {
            status: Finding::SourceMissing,
            deploy: Operation::Nothing,
            undeploy: Operation::RemoveLink,
        };
        let source_missing_occupied = Reconciler {
            status: Finding::SourceMissing,
            deploy: Operation::Nothing,
            undeploy: Operation::Refuse,
        };
        let free = Reconciler {
            status: Finding::NotDeployed,
            deploy: Operation::CreateLink,
            undeploy: Operation::Nothing,
        };
        let linked = Reconciler {
            status: Finding::Linked,
            deploy: Operation::Nothing,
            undeploy: Operation::RemoveLink,
        };
        let occupied = Reconciler {
            status: Finding::Conflict,
            deploy: Operation::Refuse,
            undeploy: Operation::Refuse,
        };
        Reconcilers {
            symlink_to_symlink: linked,
            symlink_to_file: occupied,
            symlink_to_dir: occupied,
            symlink_to_null: free,
            file_to_symlink: linked,
            file_to_file: occupied,
            file_to_dir: occupied,
            file_to_null: free,
            dir_to_symlink: linked,
            dir_to_file: occupied,
            dir_to_dir: occupied,
            dir_to_null: free,
            null_to_symlink: source_missing_link,
            null_to_file: source_missing_occupied,
            null_to_dir: source_missing_occupied,
            null_to_null: source_missing,
        }
    }

    /// Looks a scenario up. Every pair of kinds has its cell.
    pub fn lookup(&self, source: PathKind, target: PathKind) -> (found: Reconciler)
        ensures
            found == self.cell(source, target),
    {
        match source {
            PathKind::Symlink => match target {
                PathKind::Symlink => self.symlink_to_symlink,
                PathKind::File => self.symlink_to_file,
                PathKind::Directory => self.symlink_to_dir,
                PathKind::Missing => self.symlink_to_null,
            },
            PathKind::File => match target {
                PathKind::Symlink => self.file_to_symlink,
                PathKind::File => self.file_to_file,
                PathKind::Directory => self.file_to_dir,
                PathKind::Missing => self.file_to_null,
            },
            PathKind::Directory => match target {
                PathKind::Symlink => self.dir_to_symlink,
                PathKind::File => self.dir_to_file,
                PathKind::Directory => self.dir_to_dir,
                PathKind::Missing => self.dir_to_null,
            },
            PathKind::Missing => match target {
                PathKind::Symlink => self.null_to_symlink,
                PathKind::File => self.null_to_file,
                PathKind::Directory => self.null_to_dir,
                PathKind::Missing => self.null_to_null,
            },
        }
    }
}

/// One of the sixteen scenarios: the kinds of an entry's two paths.
#[derive(Clone, Copy, Debug, PartialEq, Eq, Structural)]
pub struct Scenario {
    pub source: PathKind,
    pub target: PathKind,
}

/// The word for a kind in the name of a scenario.
pub open spec fn kind_word(kind: PathKind) -> Seq<char> {
    match kind {
        PathKind::Symlink => "Symlink"@,
        PathKind::File => "File"@,
        PathKind::Directory => "Dir"@,
        PathKind::Missing => "Missing"@,
    }
}

/// Words a kind.
fn word_of(kind: PathKind) -> (word: &'static str)
    ensures
        word@ == kind_word(kind),
{
    match kind {
        PathKind::Symlink => "Symlink",
        PathKind::File => "File",
        PathKind::Directory => "Dir",
        PathKind::Missing => "Missing",
    }
}

impl Scenario {
    /// The name of the scenario: the source's kind, `To`, the target's kind.
    pub open spec fn name_spec(self) -> Seq<char> {
        kind_word(self.source) + "To"@ + kind_word(self.target)
    }

    /// Names the scenario, for diagnostics.
    pub fn name(&self) -> (name: String)
        ensures
            name@ == self.name_spec(),
    {
        let mut name = word_of(self.source).to_owned();
        name.append("To");
        name.append(word_of(self.target));
        name
    }
}

/// What was seen of an entry's two paths when its turn came.
#[derive(Clone, Debug)]
pub struct Observed {
    pub source: PathProbe,
    pub target: PathProbe,
    /// Where the target leads, as read from the link itself; `None` where the
    /// target is no link or the link could not be read.
    pub link: Option<String>,
}

/// The state of one entry, as reported to the user.
#[derive(Clone, Copy, Debug, PartialEq, Eq, Structural)]
pub enum Status {
    /// Nothing stands at the source.
    SourceMissing,
    /// The target is free: deploying would create the link.
    WouldCreate,
    /// The target is a link that leads to the source.
    Resolved,
    /// The target is a link that leads somewhere else.
    WrongTarget,
    /// The target is a real file or directory.
    Conflict,
}

/// Why a step was refused before anything was touched.
#[derive(Clone, Copy, Debug, PartialEq, Eq, Structural)]
pub enum PreconditionError {
    /// Removal was asked of something that is not a link.
    NotASymlink,
    /// A link was to be created where a real file or directory stands.
    TargetOccupied,
}

/// Why reconciling one entry failed. Such a failure is reported for its entry
/// and the batch goes on.
#[derive(Clone, Debug, PartialEq, Eq)]
pub enum EntryError {
    Precondition(PreconditionError),
    /// The filesystem refused the operation; the text is what it said.
    Io(String),
}

/// Which of the two link-creating calls a platform that tells them apart has
/// to make.
#[derive(Clone, Copy, Debug, PartialEq, Eq, Structural)]
pub enum LinkFlavor {
    ToFile,
    ToDirectory,
}

/// What to do for one entry, and what to say of it.
#[derive(Clone, Copy, Debug, PartialEq, Eq, Structural)]
pub struct Step {
    pub verb: ReconcileCommands,
    pub scenario: Scenario,
    pub operation: Operation,
    pub status: Status,
}

/// Whether the target is a link that leads to `source`. What the link
/// reads and the source are compared as paths, component by component, so
/// two spellings of one path agree.
pub open spec fn resolves(source: Seq<char>, seen: Observed) -> bool {
    &&& classify_spec(seen.target) == PathKind::Symlink
    &&& seen.link is Some
    &&& same_path_spec(seen.link->0@, source)
}

/// The status for a finding; where the target is a link, `resolved` tells
/// whether it leads to the source.
pub open spec fn status_of(finding: Finding, resolved: bool) -> Status {
    match finding {
        Finding::SourceMissing => Status::SourceMissing,
        Finding::NotDeployed => Status::WouldCreate,
        Finding::Linked => if resolved {
            Status::Resolved
        } else {
            Status::WrongTarget
        },
        Finding::Conflict => Status::Conflict,
    }
}

/// The step that `table` yields for an entry whose source is `source`, seen as
/// `seen`, under `verb`.
pub open spec fn step_with(
    table: Reconcilers,
    source: Seq<char>,
    seen: Observed,
    verb: ReconcileCommands,
) -> Step {
    let scenario = Scenario {
        source: classify_spec(seen.source),
        target: classify_spec(seen.target),
    };
    let cell = table.cell(scenario.source, scenario.target);
    Step {
        verb,
        scenario,
        operation: cell.operation_spec(verb),
        status: status_of(cell.status, resolves(source, seen)),
    }
}

/// The step that the policy yields: `step_with` on the policy's own table.
pub open spec fn step_for(source: Seq<char>, seen: Observed, verb: ReconcileCommands) -> Step {
    let scenario = Scenario {
        source: classify_spec(seen.source),
        target: classify_spec(seen.target),
    };
    let cell = policy(scenario.source, scenario.target);
    Step {
        verb,
        scenario,
        operation: cell.operation_spec(verb),
        status: status_of(cell.status, resolves(source, seen)),
    }
}

/// Tells whether the target is a link that leads to `source`.
pub fn symlink_resolved_properly(source: &String, seen: &Observed) -> (resolved: bool)
    ensures
        resolved == resolves(source@, *seen),
{
    match classify(seen.target) {
        PathKind::Symlink => match &seen.link {
            Some(dest) => same_path(dest.as_str(), source.as_str()),
            None => false,
        },
        _ => false,
    }
}

/// Refines a finding into the status to report.
pub fn refine(finding: Finding, resolved: bool) -> (status: Status)
    ensures
        status == status_of(finding, resolved),
{
    match finding {
        Finding::SourceMissing => Status::SourceMissing,
        Finding::NotDeployed => Status::WouldCreate,
        Finding::Linked => if resolved {
            Status::Resolved
        } else {
            Status::WrongTarget
        },
        Finding::Conflict => Status::Conflict,
    }
}

impl Reconcilers {
    /// The step for one entry: classifies both paths, looks the scenario up
    /// and selects the operation of `verb`.
    pub fn step(&self, entry: &DotfileEntry, seen: &Observed, verb: ReconcileCommands) -> (step:
        Step)
        ensures
            step == step_with(*self, entry.source@, *seen, verb),
            self.follows_policy() ==> step == step_for(entry.source@, *seen, verb),
    {
        let source = classify(seen.source);
        let target = classify(seen.target);
        let cell = self.lookup(source, target);
        let resolved = symlink_resolved_properly(&entry.source, seen);
        Step {
            verb,
            scenario: Scenario { source, target },
            operation: cell.operation(verb),
            status: refine(cell.status, resolved),
        }
    }
}

/// Decides what to do for one entry under `verb`, from what was seen of its
/// two paths.
pub fn reconcile_entry(entry: &DotfileEntry, seen: &Observed, verb: ReconcileCommands) -> (step:
    Step)
    ensures
        step == step_for(entry.source@, *seen, verb),
{
    let table = Reconcilers::new();
    table.step(entry, seen, verb)
}

/// Decides the steps for a whole list, entry by entry and in the list's
/// order. `seen[i]` is what was seen of entry `i`. Without exactly one
/// observation for each entry there is no answer.
pub fn reconcile_dotfiles(
    dotfiles: &Vec<DotfileEntry>,
    seen: &Vec<Observed>,
    verb: ReconcileCommands,
) -> (steps: Option<Vec<Step>>)
    ensures
        steps is Some <==> seen.len() == dotfiles.len(),
        steps is Some ==> steps->0.len() == dotfiles.len(),
        steps is Some ==> forall|i: int|
            0 <= i < dotfiles.len() ==> #[trigger] steps->0[i] == step_for(
                dotfiles[i].source@,
                seen[i],
                verb,
            ),
{
    if seen.len() != dotfiles.len() {
        return None;
    }
    let table = Reconcilers::new();
    let mut steps: Vec<Step> = Vec::new();
    let mut i: usize = 0;
    while i < dotfiles.len()
        invariant
            i <= dotfiles.len(),
            seen.len() == dotfiles.len(),
            table.follows_policy(),
            steps.len() == i,
            forall|k: int|
                0 <= k < i ==> #[trigger] steps[k] == step_for(dotfiles[k].source@, seen[k], verb),
        decreases dotfiles.len() - i,
    {
        let step = table.step(&dotfiles[i], &seen[i], verb);
        steps.push(step);
        i += 1;
    }
    Some(steps)
}

/// The check before a link is removed: only a link may go. Anything else
/// is refused as a broken precondition.
pub fn handle_unsymlink(target: PathKind) -> (checked: Result<(), EntryError>)
    ensures
        checked is Ok <==> target == PathKind::Symlink,
        checked is Err ==> checked->Err_0 == EntryError::Precondition(
            PreconditionError::NotASymlink,
        ),
{
    match target {
        PathKind::Symlink => Ok(()),
        _ => Err(EntryError::Precondition(PreconditionError::NotASymlink)),
    }
}

/// The flavor of link that leads to a source: to a directory where the
/// source is one, also through a link, and to a file otherwise.
pub open spec fn flavor_of(source: PathProbe) -> LinkFlavor {
    if source.is_dir {
        LinkFlavor::ToDirectory
    } else {
        LinkFlavor::ToFile
    }
}

/// What the failure says where a link cannot be created because something
/// stands at the target.
pub open spec fn occupied_text() -> Seq<char> {
    "target exists"@
}

/// The check before a link is created: the target must be free. On success
/// the answer is the flavor of link to create. Where anything stands at the
/// target, a file, a directory or a link, creating fails as the filesystem
/// fails it, and nothing is touched.
pub fn symlink(source: PathProbe, target: PathKind) -> (checked: Result<LinkFlavor, EntryError>)
    ensures
        checked is Ok <==> target == PathKind::Missing,
        checked is Ok ==> checked->Ok_0 == flavor_of(source),
        checked is Err ==> checked->Err_0 is Io && checked->Err_0->Io_0@ == occupied_text(),
{
    match target {
        PathKind::Missing => if source.is_dir {
            Ok(LinkFlavor::ToDirectory)
        } else {
            Ok(LinkFlavor::ToFile)
        },
        _ => Err(EntryError::Io("target exists".to_owned())),
    }
}

impl Step {
    /// The refusal that the step carries, if it is one.
    pub open spec fn refusal(self) -> Option<PreconditionError> {
        if self.operation == Operation::Refuse {
            match self.verb {
                ReconcileCommands::Undeploy => Some(PreconditionError::NotASymlink),
                _ => Some(PreconditionError::TargetOccupied),
            }
        } else {
            None
        }
    }

    /// Whether the step asks for the target's parent directories: exactly
    /// when a link is to be created.
    pub fn needs_parent(&self) -> (needed: bool)
        ensures
            needed == (self.operation == Operation::CreateLink),
    {
        match self.operation {
            Operation::CreateLink => true,
            _ => false,
        }
    }

    /// How the entry ends, given what the check before the operation said
    /// and what the filesystem said.
    pub open spec fn end_spec(self, refused: Option<EntryError>, failure: Option<String>) -> Result<
        (),
        EntryError,
    > {
        if self.refusal() is Some {
            Err(EntryError::Precondition(self.refusal()->0))
        } else if refused is Some {
            Err(refused->0)
        } else if failure is Some {
            Err(EntryError::Io(failure->0))
        } else {
            Ok(())
        }
    }

    /// How the entry ended. `refused` is the error of `symlink` or
    /// `handle_unsymlink` where the check before the operation failed, and
    /// `failure` is what the filesystem said where the operation itself did.
    /// The step's own refusal comes first, then that of the check; a failure
    /// of the filesystem is an `Io` error; otherwise the entry is done.
    pub fn conclude(&self, refused: Option<EntryError>, failure: Option<String>) -> (end: Result<
        (),
        EntryError,
    >)
        ensures
            end == self.end_spec(refused, failure),
            end is Ok <==> self.refusal() is None && refused is None && failure is None,
    {
        match self.operation {
            Operation::Refuse => match self.verb {
                ReconcileCommands::Undeploy => Err(
                    EntryError::Precondition(PreconditionError::NotASymlink),
                ),
                _ => Err(EntryError::Precondition(PreconditionError::TargetOccupied)),
            },
            _ => match refused {
                Some(error) => Err(error),
                None => match failure {
                    Some(message) => Err(EntryError::Io(message)),
                    None => Ok(()),
                },
            },
        }
    }

    /// The status of the entry once the step is over. A step that did not go
    /// through leaves the status as it was found. A link that was created
    /// leads to the source; a link that was removed leaves the target free,
    /// which shows only where the source is there.
    pub open spec fn status_after_spec(self, done: bool) -> Status {
        if !done {
            self.status
        } else {
            match (self.operation, self.status) {
                (Operation::CreateLink, Status::WouldCreate) => Status::Resolved,
                (Operation::RemoveLink, Status::Resolved) => Status::WouldCreate,
                (Operation::RemoveLink, Status::WrongTarget) => Status::WouldCreate,
                _ => self.status,
            }
        }
    }

    /// The status to report once the step is over and ended as `end` says.
    pub fn status_after(&self, end: &Result<(), EntryError>) -> (status: Status)
        ensures
            status == self.status_after_spec(end is Ok),
    {
        match end {
            Err(_) => self.status,
            Ok(_) => match self.operation {
                Operation::CreateLink => match self.status {
                    Status::WouldCreate => Status::Resolved,
                    _ => self.status,
                },
                Operation::RemoveLink => match self.status {
                    Status::Resolved | Status::WrongTarget => Status::WouldCreate,
                    _ => self.status,
                },
                _ => self.status,
            },
        }
    }
}

} // verus!
