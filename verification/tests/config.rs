use dotmgr::config::Config;

#[test]
fn absolute_request_is_taken() {
    let config = Config::resolve(Some("/srv/dots".to_string()), "/home/u", false);
    assert_eq!(config.dotfiles_dir, "/srv/dots");
    assert_eq!(config.os_dir, "/srv/dots/os/unix");
    assert_eq!(config.dotmgr_dir, "/srv/dots/os/unix/dotmgr");
}

#[test]
fn relative_request_is_passed_over() {
    let config = Config::resolve(Some("dots".to_string()), "/home/u", false);
    assert_eq!(config.dotfiles_dir, "/home/u/.dotfiles");
}

#[test]
fn without_a_request_the_home_directory_decides() {
    let config = Config::resolve(None, "/home/u", true);
    assert_eq!(config.dotfiles_dir, "/home/u/.dotfiles");
    assert_eq!(config.os_dir, "/home/u/.dotfiles/os/windows");
    assert_eq!(config.dotmgr_dir, "/home/u/.dotfiles/os/windows/dotmgr");
}

#[test]
fn at_derives_both_directories() {
    let config = Config::at("/d/".to_string(), false);
    assert_eq!(config.dotfiles_dir, "/d/");
    assert_eq!(config.os_dir, "/d/os/unix");
    assert_eq!(config.dotmgr_dir, "/d/os/unix/dotmgr");
}

#[test]
fn load_takes_an_absolute_request_without_a_home() {
    let config = Config::load(Some("/srv/dots".to_string()), false).unwrap();
    assert_eq!(config.dotfiles_dir, "/srv/dots");
    assert_eq!(config.dotmgr_dir, "/srv/dots/os/unix/dotmgr");
}

#[test]
fn load_derives_from_whatever_home_there_is() {
    if let Some(config) = Config::load(None, false) {
        assert!(config.dotfiles_dir.ends_with(".dotfiles"));
        assert_eq!(config.os_dir, format!("{}/os/unix", config.dotfiles_dir));
        assert_eq!(config.dotmgr_dir, format!("{}/dotmgr", config.os_dir));
    }
}

#[test]
fn description_has_one_directory_to_a_line() {
    let config = Config::at("/d".to_string(), false);
    assert_eq!(
        config.describe(),
        "dotfiles_dir: /d\nos_dir: /d/os/unix,\ndotmgr_dir: /d/os/unix/dotmgr\n"
    );
}
