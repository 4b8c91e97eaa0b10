//! Scripts: where they live, how one is found from a fragment of its name,
//! and the commands that list, show, edit and run them.

use vstd::prelude::*;
use vstd::string::StringExecFns;
use crate::config::Config;
use crate::path::{file_name, file_name_spec, join, join_spec};
use crate::text::{join_strings, join_with, texts};

verus! {

/// A command for the caller to run: a program and its arguments.
#[derive(Clone, Debug)]
pub struct Invocation {
    pub program: String,
    pub args: Vec<String>,
}

/// Why the files that match a pattern could not be listed.
#[derive(Clone, Copy, Debug, PartialEq, Eq, Structural)]
pub enum GlobFailure {
    /// The pattern itself is not well formed.
    BadPattern,
    /// A directory on the way could not be read.
    Unreadable,
    /// A matching path is not text.
    NotText,
}

/// Why no script could be settled on.
#[derive(Clone, Debug)]
pub enum ScriptError {
    /// The matching files could not be listed.
    Glob(GlobFailure),
    /// The fragment matches more than one file.
    Ambiguous,
    /// The fragment matches nothing.
    NotFound,
    /// The one match is an empty path.
    Empty,
    /// The script that was settled on does not exist.
    Missing(String),
    /// Running with elevated rights is not supported.
    NotImplemented,
}

/// The paths that match a pattern, in the order in which `glob::glob` yields
/// them. What matches depends on what is on disk, so nothing is claimed of
/// the paths. A pattern that `glob` rejects, a directory that it could not
/// read and a path that is no text each end the listing with their failure.
#[verifier::external_body]
fn glob_paths(pattern: &str) -> (found: Result<Vec<String>, GlobFailure>) {
    let paths = match glob::glob(pattern) {
        Ok(paths) => paths,
        Err(_) => return Err(GlobFailure::BadPattern),
    };
    let mut found: Vec<String> = Vec::new();
    for item in paths {
        match item {
            Ok(path) => match path.into_os_string().into_string() {
                Ok(text) => found.push(text),
                Err(_) => return Err(GlobFailure::NotText),
            },
            Err(_) => return Err(GlobFailure::Unreadable),
        }
    }
    Ok(found)
}

/// The pattern for the scripts in `dir` whose name holds `fragment`.
pub open spec fn script_pattern_spec(dir: Seq<char>, fragment: Seq<char>) -> Seq<char> {
    dir + "/*"@ + fragment + "*"@
}

/// Builds the pattern for the scripts in `dir` whose name holds `fragment`.
pub fn script_pattern(dir: &str, fragment: &str) -> (pattern: String)
    ensures
        pattern@ == script_pattern_spec(dir@, fragment@),
{
    let mut pattern = dir.to_owned();
    pattern.append("/*");
    pattern.append(fragment);
    pattern.append("*");
    pattern
}

/// Whether `picked` is what the matches `found` come to: there must be
/// exactly one match, and its path must not be empty.
pub open spec fn picked_from(
    found: Result<Vec<String>, GlobFailure>,
    picked: Result<String, ScriptError>,
) -> bool {
    match found {
        Err(failure) => picked is Err && picked->Err_0 == ScriptError::Glob(failure),
        Ok(paths) => {
            if paths.len() > 1 {
                picked is Err && picked->Err_0 == ScriptError::Ambiguous
            } else if paths.len() == 0 {
                picked is Err && picked->Err_0 == ScriptError::NotFound
            } else if paths[0]@.len() == 0 {
                picked is Err && picked->Err_0 == ScriptError::Empty
            } else {
                picked is Ok && picked->Ok_0@ == paths[0]@
            }
        },
    }
}

/// Settles on the one script among the matches.
pub fn pick_script(found: Result<Vec<String>, GlobFailure>) -> (picked: Result<String, ScriptError>)
    ensures
        picked_from(found, picked),
{
    match found {
        Err(failure) => Err(ScriptError::Glob(failure)),
        Ok(paths) => {
            if paths.len() > 1 {
                Err(ScriptError::Ambiguous)
            } else if paths.len() == 0 {
                Err(ScriptError::NotFound)
            } else if paths[0].as_str().is_empty() {
                Err(ScriptError::Empty)
            } else {
                Ok(paths[0].clone())
            }
        },
    }
}

/// Finds the one script in `dir` whose name holds `glob_pattern`. What is on
/// disk decides which paths match; the answer is what `pick_script` makes of
/// them, so a path that comes back is not empty.
pub fn get_script_exec(dir: &str, glob_pattern: &str) -> (script: Result<String, ScriptError>)
    ensures
        exists|found: Result<Vec<String>, GlobFailure>| picked_from(found, script),
        script is Ok ==> script->Ok_0@.len() > 0,
{
    let pattern = script_pattern(dir, glob_pattern);
    let found = glob_paths(pattern.as_str());
    let ghost seen = found;
    let script = pick_script(found);
    assert(picked_from(seen, script));
    script
}

/// The file to run for a match: a directory stands for the `script.sh` in
/// it.
pub fn script_file(candidate: &str, is_dir: bool) -> (script: String)
    ensures
        script@ == if is_dir {
            join_spec(candidate@, "script.sh"@)
        } else {
            candidate@
        },
{
    if is_dir {
        join(candidate, "script.sh")
    } else {
        candidate.to_owned()
    }
}

/// Lets a script through only if it exists.
pub fn check_script(script: String, exists: bool) -> (checked: Result<String, ScriptError>)
    ensures
        checked is Ok <==> exists,
        checked is Ok ==> checked->Ok_0@ == script@,
        checked is Err ==> checked->Err_0 == ScriptError::Missing(script),
{
    if exists {
        Ok(script)
    } else {
        Err(ScriptError::Missing(script))
    }
}

/// The script that runs other scripts.
pub fn get_entrypoint_sh(dotmgr_dir: &str) -> (entrypoint: String)
    ensures
        entrypoint@ == join_spec(dotmgr_dir@, "impl/entrypoint.sh"@),
{
    join(dotmgr_dir, "impl/entrypoint.sh")
}

/// The script that prints the environment for other scripts.
pub fn get_environment_sh(dotmgr_dir: &str) -> (environment: String)
    ensures
        environment@ == join_spec(dotmgr_dir@, "impl/environment.sh"@),
{
    join(dotmgr_dir, "impl/environment.sh")
}

/// The pattern for the shell libraries that every script is given.
pub open spec fn sources_pattern_spec(dotmgr_dir: Seq<char>) -> Seq<char> {
    join_spec(dotmgr_dir, "util"@) + "/*.sh"@
}

/// Builds the pattern for the shell libraries.
pub fn sources_pattern(dotmgr_dir: &str) -> (pattern: String)
    ensures
        pattern@ == sources_pattern_spec(dotmgr_dir@),
{
    let mut pattern = join(dotmgr_dir, "util");
    pattern.append("/*.sh");
    pattern
}

/// The shell libraries as one argument: their paths with a colon between
/// each two.
pub fn join_sources(paths: &Vec<String>) -> (sources: String)
    ensures
        sources@ == join_with(texts(paths@), ':'),
{
    join_strings(paths, ':')
}

/// Lists the shell libraries below the manager's directory and joins them.
/// Which there are is for the disk to say.
pub fn get_sources(dotmgr_dir: &str) -> (sources: Result<String, GlobFailure>)
    ensures
        exists|found: Result<Vec<String>, GlobFailure>| sources_come_from(found, sources),
{
    let pattern = sources_pattern(dotmgr_dir);
    let found = glob_paths(pattern.as_str());
    let ghost listed = found;
    let sources = sources_from(found);
    assert(sources_come_from(listed, sources));
    sources
}

/// Whether `sources` is what a listing comes to: the listed paths joined
/// with colons, in the listing's order, or the failure that ended the
/// listing.
pub open spec fn sources_come_from(
    found: Result<Vec<String>, GlobFailure>,
    sources: Result<String, GlobFailure>,
) -> bool {
    match found {
        Ok(paths) => sources is Ok && sources->Ok_0@ == join_with(texts(paths@), ':'),
        Err(failure) => sources == Err::<String, GlobFailure>(failure),
    }
}

/// Makes the one argument of a listing of shell libraries; a listing that
/// failed hands its failure on.
pub fn sources_from(found: Result<Vec<String>, GlobFailure>) -> (sources: Result<
    String,
    GlobFailure,
>)
    ensures
        sources_come_from(found, sources),
{
    match found {
        Ok(paths) => Ok(join_sources(&paths)),
        Err(failure) => Err(failure),
    }
}

/// The pattern for the shell scripts directly in `dir`.
pub fn names_pattern(dir: &str) -> (pattern: String)
    ensures
        pattern@ == join_spec(dir@, "*.sh"@),
{
    join(dir, "*.sh")
}

/// The last component of each path, in order.
pub open spec fn names_of(paths: Seq<Seq<char>>) -> Seq<Seq<char>> {
    Seq::new(paths.len(), |i: int| file_name_spec(paths[i]))
}

/// Whether `names` is what a listing comes to: the name of each listed
/// path, in the listing's order, or the failure that ended the listing.
pub open spec fn names_come_from(
    found: Result<Vec<String>, GlobFailure>,
    names: Result<Vec<String>, GlobFailure>,
) -> bool {
    match found {
        Ok(paths) => names is Ok && texts(names->Ok_0@) == names_of(texts(paths@)),
        Err(failure) => names == Err::<Vec<String>, GlobFailure>(failure),
    }
}

/// The names of the listed scripts; a listing that failed hands its failure
/// on.
pub fn names_from(found: Result<Vec<String>, GlobFailure>) -> (names: Result<
    Vec<String>,
    GlobFailure,
>)
    ensures
        names_come_from(found, names),
{
    match found {
        Err(failure) => Err(failure),
        Ok(paths) => {
            let mut names: Vec<String> = Vec::new();
            let mut i: usize = 0;
            while i < paths.len()
                invariant
                    i <= paths.len(),
                    names.len() == i,
                    forall|k: int| 0 <= k < i ==> names[k]@ == file_name_spec(paths[k]@),
                decreases paths.len() - i,
            {
                names.push(file_name(paths[i].as_str()));
                i += 1;
            }
            assert(texts(names@) =~= names_of(texts(paths@)));
            Ok(names)
        },
    }
}

/// Lists the shell scripts directly in `dir` by name, for the picker. Which
/// there are is for the disk to say.
pub fn script_names(dir: &str) -> (names: Result<Vec<String>, GlobFailure>)
    ensures
        exists|found: Result<Vec<String>, GlobFailure>| names_come_from(found, names),
{
    let pattern = names_pattern(dir);
    let found = glob_paths(pattern.as_str());
    let ghost listed = found;
    let names = names_from(found);
    assert(names_come_from(listed, names));
    names
}

/// The editor: `visual` before `editor`, and `vi` where neither is set.
pub fn get_editor(visual: Option<String>, editor: Option<String>) -> (chosen: String)
    ensures
        chosen@ == match (visual, editor) {
            (Some(v), _) => v@,
            (None, Some(e)) => e@,
            (None, None) => "vi"@,
        },
{
    match visual {
        Some(v) => v,
        None => match editor {
            Some(e) => e,
            None => "vi".to_owned(),
        },
    }
}

/// The pager: `bat` where it is installed, else `pager`, and `less` where
/// that is not set.
pub fn get_pager(bat_exists: bool, pager: Option<String>) -> (chosen: String)
    ensures
        chosen@ == if bat_exists {
            "bat"@
        } else {
            match pager {
                Some(p) => p@,
                None => "less"@,
            }
        },
{
    if bat_exists {
        "bat".to_owned()
    } else {
        match pager {
            Some(p) => p,
            None => "less".to_owned(),
        }
    }
}

/// The directory of a category of scripts below the manager's directory.
pub open spec fn category_dir_spec(dotmgr_dir: Seq<char>, category: Option<String>) -> Seq<char> {
    match category {
        Some(name) => join_spec(dotmgr_dir, "scripts-"@ + name@),
        None => join_spec(dotmgr_dir, "scripts"@),
    }
}

/// The script commands, for one category of scripts.
#[derive(Clone, Debug)]
pub struct CommandScript {
    pub config: Config,
    pub category_path: String,
}

impl CommandScript {
    /// The commands for a category; without one, for the plain scripts.
    pub fn new(config: Config, category: Option<String>) -> (command: Self)
        ensures
            command.config == config,
            command.category_path@ == category_dir_spec(config.dotmgr_dir@, category),
    {
        let category_path = match category {
            Some(name) => {
                let mut dir = "scripts-".to_owned();
                dir.append(name.as_str());
                join(config.dotmgr_dir.as_str(), dir.as_str())
            },
            None => join(config.dotmgr_dir.as_str(), "scripts"),
        };
        Self { config, category_path }
    }

    /// The command that lists the scripts of the category.
    pub fn list(&self) -> (command: Invocation)
        ensures
            command.program@ == "ls"@,
            texts(command.args@) == seq!["-x"@, self.category_path@],
    {
        let mut args: Vec<String> = Vec::new();
        args.push("-x".to_owned());
        args.push(self.category_path.clone());
        assert(texts(args@) =~= seq!["-x"@, self.category_path@]);
        Invocation { program: "ls".to_owned(), args }
    }

    /// The command that shows a script in a pager.
    pub fn view(&self, script: String, pager: String) -> (command: Invocation)
        ensures
            command.program@ == pager@,
            texts(command.args@) == seq![script@],
    {
        let mut args: Vec<String> = Vec::new();
        args.push(script);
        assert(texts(args@) =~= seq![script@]);
        Invocation { program: pager, args }
    }

    /// The command that opens a script in an editor.
    pub fn edit(&self, script: String, editor: String) -> (command: Invocation)
        ensures
            command.program@ == editor@,
            texts(command.args@) == seq![script@],
    {
        let mut args: Vec<String> = Vec::new();
        args.push(script);
        assert(texts(args@) =~= seq![script@]);
        Invocation { program: editor, args }
    }

    /// The command that runs a script: the entry point, given the script
    /// and the shell libraries. Running with elevated rights is refused.
    pub fn run(&self, script: String, sources: String, sudo: bool) -> (command: Result<
        Invocation,
        ScriptError,
    >)
        ensures
            command is Ok <==> !sudo,
            command is Err ==> command->Err_0 is NotImplemented,
            command is Ok ==> {
                &&& command->Ok_0.program@ == join_spec(
                    self.config.dotmgr_dir@,
                    "impl/entrypoint.sh"@,
                )
                &&& texts(command->Ok_0.args@) == seq![script@, sources@]
            },
    {
        if sudo {
            return Err(ScriptError::NotImplemented);
        }
        let program = get_entrypoint_sh(self.config.dotmgr_dir.as_str());
        let mut args: Vec<String> = Vec::new();
        args.push(script);
        args.push(sources);
        assert(texts(args@) =~= seq![script@, sources@]);
        Ok(Invocation { program, args })
    }
}

} // verus!
