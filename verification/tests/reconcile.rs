use dotmgr::cli::ReconcileCommands;
use dotmgr::kind::{PathKind, PathProbe};
use dotmgr::manifest::{DotfileEntry, DotfileEntryOp};
use dotmgr::reconcile::{handle_unsymlink, reconcile_dotfiles, reconcile_entry, refine, symlink};
use dotmgr::reconcile::{symlink_resolved_properly, EntryError, Finding, LinkFlavor, Observed};
use dotmgr::reconcile::{Operation, PreconditionError, Reconciler, Reconcilers, Scenario, Status};

const KINDS: [PathKind; 4] =
    [PathKind::Symlink, PathKind::File, PathKind::Directory, PathKind::Missing];

fn probe_of(kind: PathKind) -> PathProbe {
    match kind {
        PathKind::Symlink => PathProbe { is_symlink: true, is_file: true, is_dir: false, exists: true },
        PathKind::File => PathProbe { is_symlink: false, is_file: true, is_dir: false, exists: true },
        PathKind::Directory => {
            PathProbe { is_symlink: false, is_file: false, is_dir: true, exists: true }
        }
        PathKind::Missing => {
            PathProbe { is_symlink: false, is_file: false, is_dir: false, exists: false }
        }
    }
}

fn entry(source: &str, target: &str) -> DotfileEntry {
    DotfileEntry { op: DotfileEntryOp::Symlink, source: source.to_string(), target: target.to_string() }
}

fn seen(source: PathKind, target: PathKind, link: Option<&str>) -> Observed {
    Observed { source: probe_of(source), target: probe_of(target), link: link.map(|s| s.to_string()) }
}

fn expected_deploy(source: PathKind, target: PathKind) -> Operation {
    if source == PathKind::Missing {
        return Operation::Nothing;
    }
    match target {
        PathKind::Missing => Operation::CreateLink,
        PathKind::Symlink => Operation::Nothing,
        _ => Operation::Refuse,
    }
}

fn expected_undeploy(target: PathKind) -> Operation {
    match target {
        PathKind::Symlink => Operation::RemoveLink,
        PathKind::Missing => Operation::Nothing,
        _ => Operation::Refuse,
    }
}

#[test]
fn table_holds_the_policy_in_all_sixteen_cells() {
    let table = Reconcilers::new();
    for source in KINDS {
        for target in KINDS {
            let cell = table.lookup(source, target);
            assert_eq!(cell.deploy, expected_deploy(source, target));
            assert_eq!(cell.undeploy, expected_undeploy(target));
            let finding = if source == PathKind::Missing {
                Finding::SourceMissing
            } else {
                match target {
                    PathKind::Missing => Finding::NotDeployed,
                    PathKind::Symlink => Finding::Linked,
                    _ => Finding::Conflict,
                }
            };
            assert_eq!(cell.status, finding);
        }
    }
}

#[test]
fn table_cells_by_name() {
    let table = Reconcilers::new();
    let free = Reconciler {
        status: Finding::NotDeployed,
        deploy: Operation::CreateLink,
        undeploy: Operation::Nothing,
    };
    let linked =
        Reconciler { status: Finding::Linked, deploy: Operation::Nothing, undeploy: Operation::RemoveLink };
    let occupied =
        Reconciler { status: Finding::Conflict, deploy: Operation::Refuse, undeploy: Operation::Refuse };
    assert_eq!(table.file_to_null, free);
    assert_eq!(table.dir_to_null, free);
    assert_eq!(table.symlink_to_null, free);
    assert_eq!(table.file_to_symlink, linked);
    assert_eq!(table.dir_to_symlink, linked);
    assert_eq!(table.symlink_to_symlink, linked);
    assert_eq!(table.file_to_file, occupied);
    assert_eq!(table.file_to_dir, occupied);
    assert_eq!(table.dir_to_file, occupied);
    assert_eq!(table.dir_to_dir, occupied);
    assert_eq!(table.symlink_to_file, occupied);
    assert_eq!(table.symlink_to_dir, occupied);
    assert_eq!(
        table.null_to_null,
        Reconciler {
            status: Finding::SourceMissing,
            deploy: Operation::Nothing,
            undeploy: Operation::Nothing
        }
    );
    assert_eq!(
        table.null_to_symlink,
        Reconciler {
            status: Finding::SourceMissing,
            deploy: Operation::Nothing,
            undeploy: Operation::RemoveLink
        }
    );
    assert_eq!(table.null_to_file.undeploy, Operation::Refuse);
    assert_eq!(table.null_to_dir.undeploy, Operation::Refuse);
    assert_eq!(table.lookup(PathKind::File, PathKind::Missing), table.file_to_null);
    assert_eq!(table.lookup(PathKind::Missing, PathKind::Directory), table.null_to_dir);
}

#[test]
fn every_scenario_and_verb_yields_one_step() {
    let e = entry("/dot/a", "/home/a");
    for source in KINDS {
        for target in KINDS {
            for verb in
                [ReconcileCommands::Status, ReconcileCommands::Deploy, ReconcileCommands::Undeploy]
            {
                let step = reconcile_entry(&e, &seen(source, target, None), verb);
                assert_eq!(step.verb, verb);
                assert_eq!(step.scenario, Scenario { source, target });
                let expected = match verb {
                    ReconcileCommands::Status => Operation::Nothing,
                    ReconcileCommands::Deploy => expected_deploy(source, target),
                    ReconcileCommands::Undeploy => expected_undeploy(target),
                };
                assert_eq!(step.operation, expected);
            }
        }
    }
}

#[test]
fn status_never_touches_anything() {
    let e = entry("s", "t");
    for source in KINDS {
        for target in KINDS {
            let step = reconcile_entry(&e, &seen(source, target, Some("s")), ReconcileCommands::Status);
            assert_eq!(step.operation, Operation::Nothing);
            assert!(!step.needs_parent());
        }
    }
}

#[test]
fn undeploy_spares_a_real_file_at_the_target() {
    let e = entry("/dot/vimrc", "/home/u/.vimrc");
    for source in KINDS {
        for target in [PathKind::File, PathKind::Directory] {
            let step = reconcile_entry(&e, &seen(source, target, None), ReconcileCommands::Undeploy);
            assert_eq!(step.operation, Operation::Refuse);
            assert_eq!(
                step.conclude(None, None),
                Err(EntryError::Precondition(PreconditionError::NotASymlink))
            );
        }
    }
}

#[test]
fn deploy_onto_an_unrelated_directory_is_a_conflict() {
    let e = entry("/dot/vimrc", "/home/u/.vimrc");
    let step = reconcile_entry(
        &e,
        &seen(PathKind::File, PathKind::Directory, None),
        ReconcileCommands::Deploy,
    );
    assert_eq!(step.operation, Operation::Refuse);
    assert_eq!(step.status, Status::Conflict);
    assert!(!step.needs_parent());
    assert_eq!(
        step.conclude(None, None),
        Err(EntryError::Precondition(PreconditionError::TargetOccupied))
    );
    assert_eq!(
        step.conclude(None, Some("denied".to_string())),
        Err(EntryError::Precondition(PreconditionError::TargetOccupied))
    );
}

#[test]
fn deploy_then_status_then_undeploy_round_trip() {
    let e = entry("/dot/vimrc", "/home/u/.vimrc");
    let before = seen(PathKind::File, PathKind::Missing, None);
    let deploy = reconcile_entry(&e, &before, ReconcileCommands::Deploy);
    assert_eq!(deploy.operation, Operation::CreateLink);
    assert_eq!(deploy.status, Status::WouldCreate);
    assert!(deploy.needs_parent());
    assert!(deploy.conclude(None, None).is_ok());
    assert_eq!(deploy.status_after(&Ok(())), Status::Resolved);

    let linked = seen(PathKind::File, PathKind::Symlink, Some("/dot/vimrc"));
    let status = reconcile_entry(&e, &linked, ReconcileCommands::Status);
    assert_eq!(status.status, Status::Resolved);
    assert_eq!(status.operation, Operation::Nothing);

    let again = reconcile_entry(&e, &linked, ReconcileCommands::Deploy);
    assert_eq!(again.operation, Operation::Nothing);

    let undeploy = reconcile_entry(&e, &linked, ReconcileCommands::Undeploy);
    assert_eq!(undeploy.operation, Operation::RemoveLink);

    let after = reconcile_entry(&e, &before, ReconcileCommands::Status);
    assert_eq!(after.status, Status::WouldCreate);
    assert_eq!(after.scenario.target, PathKind::Missing);
}

#[test]
fn link_that_leads_elsewhere_is_a_wrong_target() {
    let e = entry("/dot/vimrc", "/home/u/.vimrc");
    let elsewhere = seen(PathKind::File, PathKind::Symlink, Some("/other"));
    let step = reconcile_entry(&e, &elsewhere, ReconcileCommands::Status);
    assert_eq!(step.status, Status::WrongTarget);
    let unread = seen(PathKind::File, PathKind::Symlink, None);
    assert_eq!(reconcile_entry(&e, &unread, ReconcileCommands::Status).status, Status::WrongTarget);
    assert_eq!(
        reconcile_entry(&e, &elsewhere, ReconcileCommands::Deploy).operation,
        Operation::Nothing
    );
    assert_eq!(
        reconcile_entry(&e, &elsewhere, ReconcileCommands::Undeploy).operation,
        Operation::RemoveLink
    );
}

#[test]
fn missing_source_is_reported_whatever_the_target() {
    let e = entry("s", "t");
    for target in KINDS {
        for verb in [ReconcileCommands::Status, ReconcileCommands::Deploy, ReconcileCommands::Undeploy]
        {
            let step = reconcile_entry(&e, &seen(PathKind::Missing, target, Some("s")), verb);
            assert_eq!(step.status, Status::SourceMissing);
            if verb == ReconcileCommands::Deploy {
                assert_eq!(step.operation, Operation::Nothing);
            }
        }
    }
}

#[test]
fn resolution_needs_a_link_and_the_same_path() {
    let source = "/dot/a".to_string();
    assert!(symlink_resolved_properly(
        &source,
        &seen(PathKind::File, PathKind::Symlink, Some("/dot/a"))
    ));
    assert!(!symlink_resolved_properly(
        &source,
        &seen(PathKind::File, PathKind::Symlink, Some("/dot/b"))
    ));
    assert!(!symlink_resolved_properly(&source, &seen(PathKind::File, PathKind::Symlink, None)));
    assert!(!symlink_resolved_properly(
        &source,
        &seen(PathKind::File, PathKind::File, Some("/dot/a"))
    ));
}

#[test]
fn resolution_compares_paths_not_spellings() {
    let with_separator = "/d/vim/".to_string();
    let linked = seen(PathKind::Directory, PathKind::Symlink, Some("/d/vim"));
    assert!(symlink_resolved_properly(&with_separator, &linked));
    let e = entry("/d/vim/", "/home/u/.vim");
    assert_eq!(reconcile_entry(&e, &linked, ReconcileCommands::Status).status, Status::Resolved);
    let plain = "/d/vim".to_string();
    for spelling in ["/d/vim/", "/d//vim", "/d/./vim", "/d/vim/."] {
        assert!(symlink_resolved_properly(
            &plain,
            &seen(PathKind::Directory, PathKind::Symlink, Some(spelling))
        ));
    }
    for other in ["d/vim", "/d/vim/..", "/d/vi", "/d/vim/x", "./d/vim"] {
        assert!(!symlink_resolved_properly(
            &plain,
            &seen(PathKind::Directory, PathKind::Symlink, Some(other))
        ));
    }
}

#[test]
fn findings_are_refined() {
    assert_eq!(refine(Finding::SourceMissing, true), Status::SourceMissing);
    assert_eq!(refine(Finding::NotDeployed, false), Status::WouldCreate);
    assert_eq!(refine(Finding::Linked, true), Status::Resolved);
    assert_eq!(refine(Finding::Linked, false), Status::WrongTarget);
    assert_eq!(refine(Finding::Conflict, true), Status::Conflict);
}

#[test]
fn batch_needs_one_observation_for_each_entry() {
    let entries = vec![entry("s1", "t1"), entry("s2", "t2")];
    let one = vec![seen(PathKind::File, PathKind::Missing, None)];
    assert_eq!(reconcile_dotfiles(&entries, &one, ReconcileCommands::Deploy), None);
    assert_eq!(reconcile_dotfiles(&Vec::new(), &Vec::new(), ReconcileCommands::Deploy), Some(vec![]));
}

#[test]
fn batch_goes_on_after_a_refusal() {
    let entries = vec![entry("s1", "t1"), entry("s2", "t2"), entry("s3", "t3")];
    let observed = vec![
        seen(PathKind::File, PathKind::Directory, None),
        seen(PathKind::Directory, PathKind::Missing, None),
        seen(PathKind::Symlink, PathKind::Symlink, Some("s3")),
    ];
    let steps = reconcile_dotfiles(&entries, &observed, ReconcileCommands::Deploy).unwrap();
    assert_eq!(steps.len(), 3);
    assert_eq!(steps[0].operation, Operation::Refuse);
    assert_eq!(steps[1].operation, Operation::CreateLink);
    assert_eq!(steps[2].operation, Operation::Nothing);
    assert_eq!(steps[2].status, Status::Resolved);
    for (i, step) in steps.iter().enumerate() {
        assert_eq!(*step, reconcile_entry(&entries[i], &observed[i], ReconcileCommands::Deploy));
    }
}

#[test]
fn only_a_link_may_be_removed() {
    let refused = Err(EntryError::Precondition(PreconditionError::NotASymlink));
    assert_eq!(handle_unsymlink(PathKind::Symlink), Ok(()));
    assert_eq!(handle_unsymlink(PathKind::File), refused);
    assert_eq!(handle_unsymlink(PathKind::Directory), refused);
    assert_eq!(handle_unsymlink(PathKind::Missing), refused);
}

#[test]
fn a_link_is_created_only_at_a_free_target() {
    let file = probe_of(PathKind::File);
    let dir = probe_of(PathKind::Directory);
    let link_to_dir = PathProbe { is_symlink: true, is_file: false, is_dir: true, exists: true };
    assert_eq!(symlink(file, PathKind::Missing), Ok(LinkFlavor::ToFile));
    assert_eq!(symlink(dir, PathKind::Missing), Ok(LinkFlavor::ToDirectory));
    assert_eq!(symlink(link_to_dir, PathKind::Missing), Ok(LinkFlavor::ToDirectory));
}

#[test]
fn creating_a_link_at_an_occupied_target_is_an_io_error() {
    let file = probe_of(PathKind::File);
    let failed = Err(EntryError::Io("target exists".to_string()));
    assert_eq!(symlink(file, PathKind::File), failed);
    assert_eq!(symlink(file, PathKind::Directory), failed);
    assert_eq!(symlink(file, PathKind::Symlink), failed);
}

#[test]
fn a_failure_of_the_filesystem_is_handed_on() {
    let e = entry("s", "t");
    let step =
        reconcile_entry(&e, &seen(PathKind::File, PathKind::Missing, None), ReconcileCommands::Deploy);
    let end = step.conclude(None, Some("permission denied".to_string()));
    assert_eq!(end, Err(EntryError::Io("permission denied".to_string())));
    assert_eq!(step.status_after(&end), Status::WouldCreate);
}

#[test]
fn a_refusal_of_the_check_comes_before_a_failure() {
    let e = entry("s", "t");
    let step =
        reconcile_entry(&e, &seen(PathKind::File, PathKind::Missing, None), ReconcileCommands::Deploy);
    let refused = symlink(probe_of(PathKind::File), PathKind::Directory).err();
    assert_eq!(
        step.conclude(refused, Some("later".to_string())),
        Err(EntryError::Io("target exists".to_string()))
    );
    let not_a_link = handle_unsymlink(PathKind::File).err();
    assert_eq!(
        step.conclude(not_a_link, None),
        Err(EntryError::Precondition(PreconditionError::NotASymlink))
    );
}

#[test]
fn status_after_a_step_that_went_through() {
    let e = entry("/dot/a", "/home/a");
    let linked = seen(PathKind::File, PathKind::Symlink, Some("/dot/a"));
    let elsewhere = seen(PathKind::File, PathKind::Symlink, Some("/other"));
    let orphan = seen(PathKind::Missing, PathKind::Symlink, Some("/dot/a"));
    let done: Result<(), EntryError> = Ok(());
    let undeploy = reconcile_entry(&e, &linked, ReconcileCommands::Undeploy);
    assert_eq!(undeploy.status_after(&done), Status::WouldCreate);
    let undeploy = reconcile_entry(&e, &elsewhere, ReconcileCommands::Undeploy);
    assert_eq!(undeploy.status_after(&done), Status::WouldCreate);
    let undeploy = reconcile_entry(&e, &orphan, ReconcileCommands::Undeploy);
    assert_eq!(undeploy.status_after(&done), Status::SourceMissing);
    let status = reconcile_entry(&e, &linked, ReconcileCommands::Status);
    assert_eq!(status.status_after(&done), Status::Resolved);
    let failed = Err(EntryError::Io("denied".to_string()));
    let undeploy = reconcile_entry(&e, &linked, ReconcileCommands::Undeploy);
    assert_eq!(undeploy.status_after(&failed), Status::Resolved);
}

#[test]
fn scenarios_are_named_after_their_kinds() {
    assert_eq!(Scenario { source: PathKind::File, target: PathKind::Missing }.name(), "FileToMissing");
    assert_eq!(Scenario { source: PathKind::Directory, target: PathKind::Symlink }.name(), "DirToSymlink");
    let mut names: Vec<String> = Vec::new();
    for source in KINDS {
        for target in KINDS {
            names.push(Scenario { source, target }.name());
        }
    }
    names.sort();
    names.dedup();
    assert_eq!(names.len(), 16);
}
