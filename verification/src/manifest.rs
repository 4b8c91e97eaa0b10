//! The dotfile registry: the declared links, read from the text that the
//! deploy script prints.

use vstd::prelude::*;
use vstd::string::StringExecFns;
use crate::path::{join, join_spec};
use crate::text::{chars_of, lines_of, split, split_chars, split_spec, texts};

verus! {

/// How an entry is deployed. Links are the only way so far.
#[derive(Clone, Copy, Debug, PartialEq, Eq, Structural)]
pub enum DotfileEntryOp {
    Symlink,
}

/// One declared link: `target` is to point at `source`.
#[derive(Clone, Debug)]
pub struct DotfileEntry {
    pub op: DotfileEntryOp,
    /// The path under the dotfiles root.
    pub source: String,
    /// The path under the home directory.
    pub target: String,
}

/// What an entry declares: its two paths as text.
pub struct Declared {
    pub source: Seq<char>,
    pub target: Seq<char>,
}

impl View for DotfileEntry {
    type V = Declared;

    open spec fn view(&self) -> Declared {
        Declared { source: self.source@, target: self.target@ }
    }
}

/// The views of a list of entries.
pub open spec fn declared(entries: Seq<DotfileEntry>) -> Seq<Declared> {
    Seq::new(entries.len(), |i: int| entries[i]@)
}

/// A line that says nothing: an empty one, or a comment.
pub open spec fn is_ignored(line: Seq<char>) -> bool {
    line.len() == 0 || line[0] == '#'
}

/// The fields of a line, which `|` separates.
pub open spec fn fields_of(line: Seq<char>) -> Seq<Seq<char>> {
    split_spec(line, '|')
}

/// A line that should declare an entry and does not have exactly three
/// fields.
pub open spec fn is_malformed(line: Seq<char>) -> bool {
    !is_ignored(line) && fields_of(line).len() != 3
}

/// What a line declares, if anything: the second field is the source and the
/// third the target; the first is reserved.
pub open spec fn declared_by(line: Seq<char>) -> Option<Declared> {
    if !is_ignored(line) && fields_of(line).len() == 3 {
        Some(Declared { source: fields_of(line)[1], target: fields_of(line)[2] })
    } else {
        None
    }
}

/// What the lines declare, in their order.
pub open spec fn entries_of(lines: Seq<Seq<char>>) -> Seq<Declared>
    decreases lines.len(),
{
    if lines.len() == 0 {
        Seq::empty()
    } else {
        let before = entries_of(lines.drop_last());
        match declared_by(lines.last()) {
            Some(entry) => before.push(entry),
            None => before,
        }
    }
}

/// The malformed lines, in their order.
pub open spec fn malformed_of(lines: Seq<Seq<char>>) -> Seq<Seq<char>>
    decreases lines.len(),
{
    if lines.len() == 0 {
        Seq::empty()
    } else {
        let before = malformed_of(lines.drop_last());
        if is_malformed(lines.last()) {
            before.push(lines.last())
        } else {
            before
        }
    }
}

/// What became of one line.
#[derive(Clone, Debug)]
pub enum ManifestLine {
    /// Empty, or a comment.
    Ignored,
    /// Not three fields: skipped with a warning.
    Malformed,
    /// A declared entry.
    Entry(DotfileEntry),
}

/// Reads one line of a manifest.
pub fn parse_line(line: &str) -> (parsed: ManifestLine)
    ensures
        match parsed {
            ManifestLine::Ignored => is_ignored(line@),
            ManifestLine::Malformed => is_malformed(line@),
            ManifestLine::Entry(entry) => declared_by(line@) == Some(entry@) && entry.op
                == DotfileEntryOp::Symlink,
        },
{
    let v = chars_of(line);
    if v.len() == 0 || v[0] == '#' {
        return ManifestLine::Ignored;
    }
    let fields = split_chars(&v, '|');
    if fields.len() != 3 {
        return ManifestLine::Malformed;
    }
    assert(texts(fields@)[1] == fields[1]@);
    assert(texts(fields@)[2] == fields[2]@);
    ManifestLine::Entry(
        DotfileEntry {
            op: DotfileEntryOp::Symlink,
            source: fields[1].clone(),
            target: fields[2].clone(),
        },
    )
}

/// A manifest as read: the entries it declares, and the lines that were
/// skipped because they are malformed.
#[derive(Clone, Debug)]
pub struct Manifest {
    pub entries: Vec<DotfileEntry>,
    pub skipped: Vec<String>,
}

/// Reads a manifest. Entries come in the order of their lines; a malformed
/// line is set aside and does not stop the reading.
pub fn parse_manifest(text: &str) -> (manifest: Manifest)
    ensures
        declared(manifest.entries@) == entries_of(lines_of(text@)),
        texts(manifest.skipped@) == malformed_of(lines_of(text@)),
        forall|i: int|
            0 <= i < manifest.entries.len() ==> (#[trigger] manifest.entries[i]).op
                == DotfileEntryOp::Symlink,
{
    let lines = split(text, '\n');
    let mut entries: Vec<DotfileEntry> = Vec::new();
    let mut skipped: Vec<String> = Vec::new();
    let mut i: usize = 0;
    assert(texts(lines@).take(0) =~= Seq::<Seq<char>>::empty());
    assert(declared(entries@) =~= Seq::<Declared>::empty());
    assert(texts(skipped@) =~= Seq::<Seq<char>>::empty());
    while i < lines.len()
        invariant
            i <= lines.len(),
            texts(lines@) == lines_of(text@),
            declared(entries@) == entries_of(texts(lines@).take(i as int)),
            texts(skipped@) == malformed_of(texts(lines@).take(i as int)),
            forall|k: int|
                0 <= k < entries.len() ==> (#[trigger] entries[k]).op == DotfileEntryOp::Symlink,
        decreases lines.len() - i,
    {
        let ghost seen = texts(lines@).take(i as int + 1);
        let ghost old_entries = declared(entries@);
        let ghost old_skipped = texts(skipped@);
        proof {
            assert(seen.drop_last() =~= texts(lines@).take(i as int));
            assert(seen.last() == lines[i as int]@);
        }
        match parse_line(lines[i].as_str()) {
            ManifestLine::Ignored => {},
            ManifestLine::Malformed => {
                let line = lines[i].clone();
                skipped.push(line);
                proof {
                    assert(texts(skipped@) =~= old_skipped.push(lines[i as int]@));
                }
            },
            ManifestLine::Entry(entry) => {
                entries.push(entry);
                proof {
                    assert(declared(entries@) =~= old_entries.push(entry@));
                }
            },
        }
        i += 1;
    }
    proof {
        assert(texts(lines@).take(i as int) =~= texts(lines@));
    }
    Manifest { entries, skipped }
}

/// What the deploy script left behind: whether it ended well, and what it
/// wrote.
#[derive(Clone, Debug)]
pub struct ScriptOutput {
    pub success: bool,
    pub stdout: String,
    pub stderr: String,
}

/// The deploy script failed; `stderr` is what it had to say. Without a
/// manifest there is nothing to reconcile.
#[derive(Clone, Debug)]
pub struct ManifestError {
    pub stderr: String,
}

/// The declared entries, from what the deploy script left behind. A script
/// that ended badly yields the error and nothing else does.
pub fn get_dotfile_list(output: &ScriptOutput) -> (list: Result<Manifest, ManifestError>)
    ensures
        list is Ok <==> output.success,
        list is Ok ==> {
            &&& declared(list->Ok_0.entries@) == entries_of(lines_of(output.stdout@))
            &&& texts(list->Ok_0.skipped@) == malformed_of(lines_of(output.stdout@))
        },
        list is Err ==> list->Err_0.stderr@ == output.stderr@,
{
    if !output.success {
        return Err(ManifestError { stderr: output.stderr.clone() });
    }
    Ok(parse_manifest(output.stdout.as_str()))
}

/// Where the deploy script lives below the manager's directory.
pub open spec fn deploy_script_spec(dotmgr_dir: Seq<char>, windows: bool) -> Seq<char> {
    if windows {
        join_spec(dotmgr_dir, "impl/deploy.ps1"@)
    } else {
        join_spec(dotmgr_dir, "impl/deploy.sh"@)
    }
}

/// The path of the deploy script for the platform.
pub fn deploy_script(dotmgr_dir: &str, windows: bool) -> (script: String)
    ensures
        script@ == deploy_script_spec(dotmgr_dir@, windows),
{
    if windows {
        join(dotmgr_dir, "impl/deploy.ps1")
    } else {
        join(dotmgr_dir, "impl/deploy.sh")
    }
}

/// The warning for a line that was skipped.
pub fn skipped_warning(line: &str) -> (warning: String)
    ensures
        warning@ == "warning: line does not have three fields: "@ + line@,
{
    let mut warning = "warning: line does not have three fields: ".to_owned();
    warning.append(line);
    warning
}

} // verus!
