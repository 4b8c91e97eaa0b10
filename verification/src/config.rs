//! Where the manager finds things: the dotfiles root and the two directories
//! derived from it.

use vstd::prelude::*;
use vstd::string::StringExecFns;
use crate::path::{is_absolute, is_absolute_spec, join, join_spec};

verus! {

/// The three directories the manager works with.
#[derive(Clone, Debug)]
pub struct Config {
    pub dotfiles_dir: String,
    pub os_dir: String,
    pub dotmgr_dir: String,
}

/// The directory below the dotfiles root that belongs to the platform.
pub open spec fn os_dir_spec(dotfiles_dir: Seq<char>, windows: bool) -> Seq<char> {
    if windows {
        join_spec(dotfiles_dir, "os/windows"@)
    } else {
        join_spec(dotfiles_dir, "os/unix"@)
    }
}

/// The dotfiles root: the requested directory where one is requested and is
/// absolute, and `.dotfiles` below the home directory otherwise.
pub open spec fn dotfiles_dir_spec(requested: Option<String>, home: Seq<char>) -> Seq<char> {
    if requested is Some && is_absolute_spec(requested->0@) {
        requested->0@
    } else {
        join_spec(home, ".dotfiles"@)
    }
}

/// The home directory, as `dirs::home_dir` finds it from the environment and
/// the user database; `None` where it finds none or the path is no text.
/// Nothing is claimed of the answer.
#[verifier::external_body]
pub(crate) fn home_dir() -> (home: Option<String>) {
    match dirs::home_dir() {
        Some(path) => match path.into_os_string().into_string() {
            Ok(text) => Some(text),
            Err(_) => None,
        },
        None => None,
    }
}

impl Config {
    /// The two derived directories follow from the dotfiles root.
    pub open spec fn derived(self, windows: bool) -> bool {
        &&& self.os_dir@ == os_dir_spec(self.dotfiles_dir@, windows)
        &&& self.dotmgr_dir@ == join_spec(self.os_dir@, "dotmgr"@)
    }

    /// The configuration for a dotfiles root.
    pub fn at(dotfiles_dir: String, windows: bool) -> (config: Config)
        ensures
            config.dotfiles_dir@ == dotfiles_dir@,
            config.derived(windows),
    {
        let os_dir = if windows {
            join(dotfiles_dir.as_str(), "os/windows")
        } else {
            join(dotfiles_dir.as_str(), "os/unix")
        };
        let dotmgr_dir = join(os_dir.as_str(), "dotmgr");
        Config { dotfiles_dir, os_dir, dotmgr_dir }
    }

    /// The configuration for a requested dotfiles root and a home directory.
    /// A request that is not absolute is passed over.
    pub fn resolve(requested: Option<String>, home: &str, windows: bool) -> (config: Config)
        ensures
            config.dotfiles_dir@ == dotfiles_dir_spec(requested, home@),
            config.derived(windows),
    {
        match requested {
            Some(dir) => {
                if is_absolute(dir.as_str()) {
                    Config::at(dir, windows)
                } else {
                    Config::at(join(home, ".dotfiles"), windows)
                }
            },
            None => Config::at(join(home, ".dotfiles"), windows),
        }
    }

    /// The configuration for a requested dotfiles root, with the home
    /// directory looked up only where it is needed. An absolute request
    /// always yields a configuration; otherwise there is one exactly when a
    /// home directory was found.
    pub fn load(requested: Option<String>, windows: bool) -> (config: Option<Config>)
        ensures
            requested is Some && is_absolute_spec(requested->0@) ==> config is Some
                && config->0.dotfiles_dir@ == requested->0@,
            config is Some ==> config->0.derived(windows),
            config is Some ==> exists|home: Seq<char>|
                config->0.dotfiles_dir@ == dotfiles_dir_spec(requested, home),
    {
        let absolute = match &requested {
            Some(dir) => is_absolute(dir.as_str()),
            None => false,
        };
        if absolute {
            let config = Config::resolve(requested, "", windows);
            assert(config.dotfiles_dir@ == dotfiles_dir_spec(requested, ""@));
            Some(config)
        } else {
            match home_dir() {
                Some(home) => {
                    let config = Config::resolve(requested, home.as_str(), windows);
                    assert(config.dotfiles_dir@ == dotfiles_dir_spec(requested, home@));
                    Some(config)
                },
                None => None,
            }
        }
    }

    /// The configuration in words, one directory to a line.
    pub open spec fn describe_spec(self) -> Seq<char> {
        "dotfiles_dir: "@ + self.dotfiles_dir@ + "\nos_dir: "@ + self.os_dir@ + ",\ndotmgr_dir: "@
            + self.dotmgr_dir@ + "\n"@
    }

    /// Describes the configuration.
    pub fn describe(&self) -> (text: String)
        ensures
            text@ == self.describe_spec(),
    {
        let mut text = "dotfiles_dir: ".to_owned();
        text.append(self.dotfiles_dir.as_str());
        text.append("\nos_dir: ");
        text.append(self.os_dir.as_str());
        text.append(",\ndotmgr_dir: ");
        text.append(self.dotmgr_dir.as_str());
        text.append("\n");
        text
    }
}

} // verus!
