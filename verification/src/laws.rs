//! What the policy guarantees, proved over a small model of one declared
//! pair: the kinds of its two paths and whether the target leads to the
//! source.

use vstd::prelude::*;
use crate::cli::ReconcileCommands;
use crate::kind::{classify_spec, PathKind};
use crate::reconcile::{
    deploy_for,
    finding_for,
    kind_word,
    policy,
    resolves,
    status_of,
    step_for,
    undeploy_for,
    Observed,
    Operation,
    Reconcilers,
    Scenario,
    Status,
};

verus! {

/// The state of one declared pair.
pub struct PairState {
    pub source: PathKind,
    pub target: PathKind,
    /// Whether the target is a link that leads to the source.
    pub resolved: bool,
}

impl PairState {
    /// Only a link can lead anywhere.
    pub open spec fn consistent(self) -> bool {
        self.resolved ==> self.target == PathKind::Symlink
    }

    /// The pair that an observation shows, for an entry whose source is
    /// `source`.
    pub open spec fn of(source: Seq<char>, seen: Observed) -> PairState {
        PairState {
            source: classify_spec(seen.source),
            target: classify_spec(seen.target),
            resolved: resolves(source, seen),
        }
    }

    /// The pair once `operation` has been carried out and succeeded. A link
    /// is created only at a free target and then leads to the source; only a
    /// link is removed; anything else leaves the pair as it was.
    pub open spec fn after(self, operation: Operation) -> PairState {
        match operation {
            Operation::CreateLink => if self.target == PathKind::Missing {
                PairState { source: self.source, target: PathKind::Symlink, resolved: true }
            } else {
                self
            },
            Operation::RemoveLink => if self.target == PathKind::Symlink {
                PairState { source: self.source, target: PathKind::Missing, resolved: false }
            } else {
                self
            },
            Operation::Nothing | Operation::Refuse => self,
        }
    }

    /// The pair after `verb` has run on it.
    pub open spec fn run(self, verb: ReconcileCommands) -> PairState {
        self.after(policy(self.source, self.target).operation_spec(verb))
    }

    /// What `status` reports of the pair.
    pub open spec fn status(self) -> Status {
        status_of(finding_for(self.source, self.target), self.resolved)
    }
}

/// The step decided for an observed entry is the one that the model runs on
/// the pair which the observation shows, and that pair is consistent.
pub proof fn step_follows_the_pair(source: Seq<char>, seen: Observed, verb: ReconcileCommands)
    ensures
        PairState::of(source, seen).consistent(),
        step_for(source, seen, verb).status == PairState::of(source, seen).status(),
        PairState::of(source, seen).run(verb) == PairState::of(source, seen).after(
            step_for(source, seen, verb).operation,
        ),
{
}

/// The status reported once a step has gone through is the status of the
/// pair after the operation; a step that did not go through reports the
/// status that was found.
pub proof fn status_after_follows_the_pair(
    source: Seq<char>,
    seen: Observed,
    verb: ReconcileCommands,
)
    ensures
        step_for(source, seen, verb).status_after_spec(true) == PairState::of(source, seen).run(
            verb,
        ).status(),
        step_for(source, seen, verb).status_after_spec(false) == PairState::of(
            source,
            seen,
        ).status(),
{
}

/// Deploying twice leaves a pair as deploying once does: the second run finds
/// nothing to do.
pub proof fn deploy_is_idempotent(pair: PairState)
    ensures
        pair.run(ReconcileCommands::Deploy).run(ReconcileCommands::Deploy) == pair.run(
            ReconcileCommands::Deploy,
        ),
        deploy_for(
            pair.run(ReconcileCommands::Deploy).source,
            pair.run(ReconcileCommands::Deploy).target,
        ) != Operation::CreateLink,
{
}

/// Undeploying removes nothing but a link: where the target is a file or a
/// directory the operation is a refusal and the pair stays as it was.
pub proof fn undeploy_spares_real_data(pair: PairState)
    ensures
        undeploy_for(pair.source, pair.target) == Operation::RemoveLink ==> pair.target
            == PathKind::Symlink,
        pair.target == PathKind::File || pair.target == PathKind::Directory ==> {
            &&& undeploy_for(pair.source, pair.target) == Operation::Refuse
            &&& pair.run(ReconcileCommands::Undeploy) == pair
        },
{
}

/// The same, of the step decided for an observed entry: a removal is decided
/// only where the target was seen to be a link.
pub proof fn undeploy_step_removes_only_links(source: Seq<char>, seen: Observed)
    ensures
        step_for(source, seen, ReconcileCommands::Undeploy).operation == Operation::RemoveLink
            <==> seen.target.is_symlink,
{
}

/// Deploying never replaces real data, and creates a link only at a free
/// target.
pub proof fn deploy_spares_real_data(pair: PairState)
    ensures
        deploy_for(pair.source, pair.target) == Operation::CreateLink ==> pair.target
            == PathKind::Missing,
        deploy_for(pair.source, pair.target) != Operation::RemoveLink,
        pair.target == PathKind::File || pair.target == PathKind::Directory ==> pair.run(
            ReconcileCommands::Deploy,
        ) == pair,
{
}

/// A pair whose source is there and whose target is free is reported as
/// resolved once deployed.
pub proof fn deploy_then_status_is_resolved(pair: PairState)
    requires
        pair.source != PathKind::Missing,
        pair.target == PathKind::Missing,
    ensures
        pair.run(ReconcileCommands::Deploy).status() == Status::Resolved,
        pair.run(ReconcileCommands::Deploy).target == PathKind::Symlink,
{
}

/// Deploying such a pair and undeploying it again frees the target, and the
/// pair is reported as not deployed.
pub proof fn deploy_then_undeploy_frees_the_target(pair: PairState)
    requires
        pair.source != PathKind::Missing,
        pair.target == PathKind::Missing,
    ensures
        pair.run(ReconcileCommands::Deploy).run(ReconcileCommands::Undeploy).target
            == PathKind::Missing,
        pair.run(ReconcileCommands::Deploy).run(ReconcileCommands::Undeploy).status()
            == Status::WouldCreate,
        pair.consistent() ==> pair.run(ReconcileCommands::Deploy).run(ReconcileCommands::Undeploy)
            == pair,
{
}

/// Status never changes a pair.
pub proof fn status_changes_nothing(pair: PairState)
    ensures
        pair.run(ReconcileCommands::Status) == pair,
{
}

/// Every verb keeps a consistent pair consistent.
pub proof fn run_keeps_consistency(pair: PairState, verb: ReconcileCommands)
    requires
        pair.consistent(),
    ensures
        pair.run(verb).consistent(),
{
}

/// A table that follows the policy answers for each of the sixteen pairs of
/// kinds and each verb with the one operation that the policy names; under
/// `status` that is always to do nothing.
pub proof fn every_scenario_is_defined(
    table: Reconcilers,
    source: PathKind,
    target: PathKind,
    verb: ReconcileCommands,
)
    requires
        table.follows_policy(),
    ensures
        table.cell(source, target) == policy(source, target),
        table.cell(source, target).operation_spec(verb) == match verb {
            ReconcileCommands::Status => Operation::Nothing,
            ReconcileCommands::Deploy => deploy_for(source, target),
            ReconcileCommands::Undeploy => undeploy_for(source, target),
        },
{
}

/// The words for two different kinds begin with different letters.
proof fn kind_words_differ(a: PathKind, b: PathKind)
    requires
        a != b,
    ensures
        kind_word(a).len() >= 3,
        kind_word(b).len() >= 3,
        kind_word(a)[0] != kind_word(b)[0],
{
    reveal_strlit("Symlink");
    reveal_strlit("File");
    reveal_strlit("Dir");
    reveal_strlit("Missing");
}

/// No two of the sixteen scenarios share a name.
pub proof fn scenario_names_differ(a: Scenario, b: Scenario)
    requires
        a != b,
    ensures
        a.name_spec() != b.name_spec(),
{
    reveal_strlit("To");
    if a.source != b.source {
        kind_words_differ(a.source, b.source);
        assert(a.name_spec()[0] == kind_word(a.source)[0]);
        assert(b.name_spec()[0] == kind_word(b.source)[0]);
    } else {
        kind_words_differ(a.target, b.target);
        let at = kind_word(a.source).len() + 2;
        assert(a.name_spec()[at as int] == kind_word(a.target)[0]);
        assert(b.name_spec()[at as int] == kind_word(b.target)[0]);
    }
}

/// Where the source is there and the target is a real file or directory,
/// deploying is refused, the pair stays as it was, and a conflict is
/// reported.
pub proof fn occupied_target_is_a_conflict(pair: PairState)
    requires
        pair.source != PathKind::Missing,
        pair.target == PathKind::File || pair.target == PathKind::Directory,
    ensures
        deploy_for(pair.source, pair.target) == Operation::Refuse,
        pair.run(ReconcileCommands::Deploy) == pair,
        pair.status() == Status::Conflict,
{
}

/// The same, of the step decided for an observed entry.
pub proof fn occupied_target_step_is_refused(source: Seq<char>, seen: Observed)
    requires
        classify_spec(seen.source) != PathKind::Missing,
        !seen.target.is_symlink,
        seen.target.is_dir || seen.target.is_file || seen.target.exists,
    ensures
        step_for(source, seen, ReconcileCommands::Deploy).operation == Operation::Refuse,
        step_for(source, seen, ReconcileCommands::Deploy).status == Status::Conflict,
        step_for(source, seen, ReconcileCommands::Deploy).refusal() is Some,
{
}

} // verus!
