use dotmgr::cli::ReconcileCommands;
use dotmgr::commands::{internal_find_man, internal_generate, CommandInternal, CommandReconcile};
use dotmgr::config::Config;
use dotmgr::kind::PathProbe;
use dotmgr::manifest::ScriptOutput;
use dotmgr::reconcile::{Observed, Operation, Status};

fn config() -> Config {
    Config::at("/d".to_string(), false)
}

fn output(success: bool, stdout: &str) -> ScriptOutput {
    ScriptOutput { success, stdout: stdout.to_string(), stderr: "went wrong".to_string() }
}

fn file_to_nothing() -> Observed {
    Observed {
        source: PathProbe { is_symlink: false, is_file: true, is_dir: false, exists: true },
        target: PathProbe { is_symlink: false, is_file: false, is_dir: false, exists: false },
        link: None,
    }
}

#[test]
fn internal_commands_hold_their_configuration() {
    let command = CommandInternal::new(config());
    assert_eq!(command.config.dotfiles_dir, "/d");
    command.start_watcher();
    command.find_man();
    command.generate();
    internal_generate();
}

#[test]
fn internal_find_man_gives_the_page() {
    assert_eq!(internal_find_man("sudo 'git' status".to_string()), "git-status");
}

#[test]
fn reconcile_command_reads_the_manifest() {
    let command = CommandReconcile::new(config(), &output(true, "x|s1|t1\nbad\nx|s2|t2")).unwrap();
    assert_eq!(command.dotfile_list.len(), 2);
    assert_eq!(command.dotfile_list[1].target, "t2");
    assert_eq!(command.skipped, vec!["bad".to_string()]);
    assert_eq!(command.config.dotmgr_dir, "/d/os/unix/dotmgr");
}

#[test]
fn reconcile_command_needs_a_manifest() {
    match CommandReconcile::new(config(), &output(false, "x|s1|t1")) {
        Err(error) => assert_eq!(error.stderr, "went wrong"),
        Ok(_) => panic!("the script failed"),
    }
}

#[test]
fn each_verb_selects_its_operation() {
    let command = CommandReconcile::new(config(), &output(true, "x|s1|t1")).unwrap();
    let seen = file_to_nothing();
    let status = command.status(0, &seen).unwrap();
    assert_eq!(status.verb, ReconcileCommands::Status);
    assert_eq!(status.operation, Operation::Nothing);
    assert_eq!(status.status, Status::WouldCreate);
    let deploy = command.deploy(0, &seen).unwrap();
    assert_eq!(deploy.verb, ReconcileCommands::Deploy);
    assert_eq!(deploy.operation, Operation::CreateLink);
    let undeploy = command.undeploy(0, &seen).unwrap();
    assert_eq!(undeploy.verb, ReconcileCommands::Undeploy);
    assert_eq!(undeploy.operation, Operation::Nothing);
    assert_eq!(command.step(ReconcileCommands::Deploy, 0, &seen), Some(deploy));
}

#[test]
fn past_the_end_there_is_no_step() {
    let command = CommandReconcile::new(config(), &output(true, "x|s1|t1")).unwrap();
    let seen = file_to_nothing();
    assert_eq!(command.status(1, &seen), None);
    assert_eq!(command.deploy(7, &seen), None);
    assert_eq!(command.undeploy(usize::MAX, &seen), None);
}
