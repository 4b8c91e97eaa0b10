use dotmgr::cli::ReconcileCommands;
use dotmgr::kind::PathKind;
use dotmgr::manifest::{DotfileEntry, DotfileEntryOp};
use dotmgr::reconcile::{EntryError, Operation, PreconditionError, Scenario, Status, Step};
use dotmgr::report::{entry_report, error_line, fixable_line, format_status_line, is_fixable};
use dotmgr::report::{not_implemented_notice, prettify_path, prettify_under, print_fixable};
use dotmgr::report::{print_path, print_title, status_line, status_text, title_line};

#[test]
fn statuses_in_words() {
    assert_eq!(status_text(Status::SourceMissing), "source missing");
    assert_eq!(status_text(Status::WouldCreate), "would create symlink");
    assert_eq!(status_text(Status::Resolved), "OK");
    assert_eq!(status_text(Status::WrongTarget), "WRONG TARGET");
    assert_eq!(status_text(Status::Conflict), "CONFLICT: target occupied by real file/dir");
}

#[test]
fn status_line_names_target_source_and_status() {
    assert_eq!(status_line("~/.vimrc", "/dot/vimrc", Status::Resolved), "~/.vimrc -> /dot/vimrc  => OK");
    assert_eq!(
        status_line("t", "s", Status::WrongTarget),
        "t -> s  => WRONG TARGET"
    );
}

#[test]
fn formatted_status_line_ends_with_source_and_status() {
    let line = format_status_line("/dot/vimrc", "/home/u/.vimrc", Status::Conflict);
    assert!(line.ends_with(" -> /dot/vimrc  => CONFLICT: target occupied by real file/dir"));
    assert!(line.contains("/home/u/.vimrc"));
}

#[test]
fn path_report_has_two_lines() {
    let lines = print_path("/home/u/.vimrc", Status::WouldCreate);
    assert_eq!(lines.len(), 2);
    assert!(lines[0].contains("/home/u/.vimrc"));
    assert_eq!(lines[1], "  => would create symlink");
}

#[test]
fn title_is_put_together_in_order() {
    assert_eq!(title_line("/home/u", "/", ".vimrc"), "\u{1F449} /home/u/.vimrc");
    assert_eq!(title_line("", "", ""), "\u{1F449} ");
}

#[test]
fn title_of_a_target() {
    let title = print_title("/home/u/.vimrc").unwrap();
    assert!(title.starts_with("\u{1F449} "));
    assert!(title.contains("/home/u"));
    assert!(title.contains(".vimrc"));
    assert_eq!(print_title("/"), None);
    assert_eq!(print_title(""), None);
}

#[test]
fn only_a_missing_link_can_be_mended() {
    assert!(is_fixable(Status::WouldCreate));
    assert!(!is_fixable(Status::Resolved));
    assert!(!is_fixable(Status::WrongTarget));
    assert!(!is_fixable(Status::Conflict));
    assert!(!is_fixable(Status::SourceMissing));
}

#[test]
fn fixable_lines() {
    assert_eq!(fixable_line("fixable:", true), "  => fixable: yes");
    assert_eq!(fixable_line("fixable:", false), "  => fixable: no");
    assert!(print_fixable(true).starts_with("  => "));
    assert!(print_fixable(true).ends_with(" yes"));
    assert!(print_fixable(false).ends_with(" no"));
    assert!(print_fixable(false).contains("fixable:"));
}

#[test]
fn failures_in_words() {
    assert_eq!(
        error_line("/t", &EntryError::Precondition(PreconditionError::NotASymlink)),
        "WARNING: Cannot handle path (not symlink): /t"
    );
    assert_eq!(
        error_line("/t", &EntryError::Precondition(PreconditionError::TargetOccupied)),
        "WARNING: Cannot deploy (target occupied): /t"
    );
    assert_eq!(error_line("/t", &EntryError::Io("denied".to_string())), "ERROR: /t: denied");
}

#[test]
fn every_entry_gets_its_status_line() {
    let entry = DotfileEntry {
        op: DotfileEntryOp::Symlink,
        source: "/dot/a".to_string(),
        target: "/home/a".to_string(),
    };
    let step = Step {
        verb: ReconcileCommands::Deploy,
        scenario: Scenario { source: PathKind::File, target: PathKind::Directory },
        operation: Operation::Refuse,
        status: Status::Conflict,
    };
    let refused = entry_report(&entry, &step, &step.conclude(None, None));
    assert_eq!(refused.len(), 2);
    assert!(refused[0].ends_with(" -> /dot/a  => CONFLICT: target occupied by real file/dir"));
    assert_eq!(refused[1], "WARNING: Cannot deploy (target occupied): /home/a");
    let fine = entry_report(&entry, &step, &Ok(()));
    assert_eq!(fine.len(), 1);
}

#[test]
fn notice_says_not_implemented() {
    assert!(not_implemented_notice().contains("Not implemented"));
}

#[test]
fn paths_below_home_are_shortened() {
    assert_eq!(prettify_under("/home/u/.vimrc", "/home/u"), "~/.vimrc");
    assert_eq!(prettify_under("/home/u", "/home/u"), "~/");
    assert_eq!(prettify_under("/home/u2/.vimrc", "/home/u"), "/home/u2/.vimrc");
    assert_eq!(prettify_under("/etc/x", "/home/u"), "/etc/x");
    assert_eq!(prettify_under("/etc/x", ""), "/etc/x");
}

#[test]
fn paths_elsewhere_stay_as_they_are() {
    assert_eq!(prettify_path("relative/path"), "relative/path");
}

#[test]
fn the_report_shows_the_status_after_the_step() {
    let entry = DotfileEntry {
        op: DotfileEntryOp::Symlink,
        source: "/dot/a".to_string(),
        target: "/home/a".to_string(),
    };
    let step = Step {
        verb: ReconcileCommands::Deploy,
        scenario: Scenario { source: PathKind::File, target: PathKind::Missing },
        operation: Operation::CreateLink,
        status: Status::WouldCreate,
    };
    let done = entry_report(&entry, &step, &step.conclude(None, None));
    assert_eq!(done.len(), 1);
    assert!(done[0].ends_with(" -> /dot/a  => OK"));
    let failed = entry_report(&entry, &step, &step.conclude(None, Some("denied".to_string())));
    assert_eq!(failed.len(), 2);
    assert!(failed[0].ends_with(" -> /dot/a  => would create symlink"));
    assert_eq!(failed[1], "ERROR: /home/a: denied");
}
