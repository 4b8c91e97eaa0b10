//! What is said of each entry: its title, its status, and what went wrong.
//! Styled text comes from the terminal styling crate; the lines are put
//! together here.

use vstd::prelude::*;
use vstd::string::StringExecFns;
use crate::config::home_dir;
use crate::path::split_path;
use crate::manifest::DotfileEntry;
use crate::reconcile::{EntryError, PreconditionError, Status, Step};
use crate::text::chars_of;

verus! {

/// The character that begins a terminal's escape sequences.
pub open spec fn escape() -> char {
    '\u{1b}'
}

/// What `colored` writes before dimmed text where styling is on.
pub open spec fn dimmed_on() -> Seq<char> {
    seq!['\u{1b}', '[', '2', 'm']
}

/// What `colored` writes before white text where styling is on.
pub open spec fn white_on() -> Seq<char> {
    seq!['\u{1b}', '[', '3', '7', 'm']
}

/// What `colored` writes before blue text where styling is on.
pub open spec fn blue_on() -> Seq<char> {
    seq!['\u{1b}', '[', '3', '4', 'm']
}

/// What `colored` writes before italic text where styling is on.
pub open spec fn italic_on() -> Seq<char> {
    seq!['\u{1b}', '[', '3', 'm']
}

/// What `colored` writes after styled text.
pub open spec fn style_off() -> Seq<char> {
    seq!['\u{1b}', '[', '0', 'm']
}

/// Whether `styled` is `text` as a terminal is told to show it in the style
/// that `on` opens: the text between the opening and the closing sequence
/// where styling is on, and the text alone where it is off. The switch is
/// read again for each part of the rendering, so where it goes off in
/// between, the text comes with the closing sequence alone.
pub open spec fn renders(on: Seq<char>, text: Seq<char>, styled: Seq<char>) -> bool {
    ||| styled == text
    ||| styled == on + text + style_off()
    ||| styled == text + style_off()
}

/// What is known of styled text: a text without an escape character is
/// rendered as `renders` says. Of a text that holds one nothing is known,
/// since `colored` rewrites closing sequences that a text brings along.
pub open spec fn is_styled(on: Seq<char>, text: Seq<char>, styled: Seq<char>) -> bool {
    !text.contains(escape()) ==> renders(on, text, styled)
}

/// Whether `styled` is `text` in italics.
pub open spec fn is_italic_of(text: Seq<char>, styled: Seq<char>) -> bool {
    renders(italic_on(), text, styled)
}

/// `text` dimmed, as `colored::Colorize::dimmed` renders it through
/// `Display`. Whether styling is on is for the terminal and the environment
/// to say, so the answer is one of those that `renders` allows; that is
/// claimed only of a text without an escape character.
#[verifier::external_body]
fn dimmed(text: &str) -> (styled: String)
    ensures
        is_styled(dimmed_on(), text@, styled@),
{
    colored::Colorize::dimmed(text).to_string()
}

/// `text` in white, as `colored::Colorize::white` renders it through
/// `Display`: one of the answers that `renders` allows, claimed only of a
/// text without an escape character.
#[verifier::external_body]
fn white(text: &str) -> (styled: String)
    ensures
        is_styled(white_on(), text@, styled@),
{
    colored::Colorize::white(text).to_string()
}

/// `text` in blue, as `colored::Colorize::blue` renders it through
/// `Display`: one of the answers that `renders` allows, claimed only of a
/// text without an escape character.
#[verifier::external_body]
fn blue(text: &str) -> (styled: String)
    ensures
        is_styled(blue_on(), text@, styled@),
{
    colored::Colorize::blue(text).to_string()
}

/// `text` in italics, as `colored::Colorize::italic` renders it through
/// `Display`: one of the answers that `renders` allows, claimed only of a
/// text without an escape character.
#[verifier::external_body]
fn italic(text: &str) -> (styled: String)
    ensures
        is_styled(italic_on(), text@, styled@),
{
    colored::Colorize::italic(text).to_string()
}

/// The words for a status.
pub open spec fn status_text_spec(status: Status) -> Seq<char> {
    match status {
        Status::SourceMissing => "source missing"@,
        Status::WouldCreate => "would create symlink"@,
        Status::Resolved => "OK"@,
        Status::WrongTarget => "WRONG TARGET"@,
        Status::Conflict => "CONFLICT: target occupied by real file/dir"@,
    }
}

/// Words a status.
pub fn status_text(status: Status) -> (text: String)
    ensures
        text@ == status_text_spec(status),
{
    match status {
        Status::SourceMissing => "source missing".to_owned(),
        Status::WouldCreate => "would create symlink".to_owned(),
        Status::Resolved => "OK".to_owned(),
        Status::WrongTarget => "WRONG TARGET".to_owned(),
        Status::Conflict => "CONFLICT: target occupied by real file/dir".to_owned(),
    }
}

/// The status line of an entry: the target as it is to be shown, the source
/// it is declared to lead to, and the status in words.
pub open spec fn status_line_spec(shown_target: Seq<char>, source: Seq<char>, status: Status) -> Seq<
    char,
> {
    shown_target + " -> "@ + source + "  => "@ + status_text_spec(status)
}

/// Puts the status line of an entry together.
pub fn status_line(shown_target: &str, source: &str, status: Status) -> (line: String)
    ensures
        line@ == status_line_spec(shown_target@, source@, status),
{
    let mut line = shown_target.to_owned();
    line.append(" -> ");
    line.append(source);
    line.append("  => ");
    line.append(status_text(status).as_str());
    line
}

/// The status line of an entry, with the target dimmed.
pub fn format_status_line(source: &str, target: &str, status: Status) -> (line: String)
    ensures
        exists|shown: Seq<char>|
            line@ == status_line_spec(shown, source@, status) && is_styled(
                dimmed_on(),
                target@,
                shown,
            ),
{
    let shown = dimmed(target);
    let line = status_line(shown.as_str(), source, status);
    assert(line@ == status_line_spec(shown@, source@, status) && is_styled(
        dimmed_on(),
        target@,
        shown@,
    ));
    line
}

/// The two lines that report on a target: the target itself, dimmed, and
/// the status in words.
pub fn print_path(target: &str, status: Status) -> (lines: Vec<String>)
    ensures
        lines.len() == 2,
        is_styled(dimmed_on(), target@, lines[0]@),
        lines[1]@ == "  => "@ + status_text_spec(status),
{
    let mut second = "  => ".to_owned();
    second.append(status_text(status).as_str());
    let mut lines: Vec<String> = Vec::new();
    lines.push(dimmed(target));
    lines.push(second);
    lines
}

/// The title of an entry: a pointing hand, then the directory, the separator
/// and the name, each as it is to be shown.
pub open spec fn title_spec(directory: Seq<char>, separator: Seq<char>, name: Seq<char>) -> Seq<
    char,
> {
    "\u{1F449} "@ + directory + separator + name
}

/// Puts the title of an entry together.
pub fn title_line(directory: &str, separator: &str, name: &str) -> (title: String)
    ensures
        title@ == title_spec(directory@, separator@, name@),
{
    let mut title = "\u{1F449} ".to_owned();
    title.append(directory);
    title.append(separator);
    title.append(name);
    title
}

/// Whether `title` is the title of `target`: the hand, then the directory
/// that holds the target in white, a dimmed separator, and the target's name
/// in blue.
pub open spec fn is_title_of(target: Seq<char>, title: Seq<char>) -> bool {
    exists|directory: Seq<char>, separator: Seq<char>, name: Seq<char>|
        {
            &&& title == #[trigger] title_spec(directory, separator, name)
            &&& is_styled(white_on(), crate::path::parent_spec(target), directory)
            &&& renders(dimmed_on(), seq!['/'], separator)
            &&& is_styled(blue_on(), crate::path::file_name_spec(target), name)
        }
}

/// The title for a target. A target without a name, the empty path or the
/// root, has no title.
pub fn print_title(target: &str) -> (title: Option<String>)
    ensures
        title is Some <==> crate::path::has_parent(target@),
        title is Some ==> is_title_of(target@, title->0@),
{
    match split_path(target) {
        Some((directory, name)) => {
            let d = white(directory.as_str());
            proof {
                reveal_strlit("/");
                assert("/"@ =~= seq!['/']);
                assert(!seq!['/'].contains(escape())) by {
                    assert forall|i: int| 0 <= i < seq!['/'].len() implies seq!['/'][i]
                        != escape() by {}
                }
            }
            let s = dimmed("/");
            let n = blue(name.as_str());
            let title = title_line(d.as_str(), s.as_str(), n.as_str());
            assert(title@ == title_spec(d@, s@, n@));
            Some(title)
        },
        None => None,
    }
}

/// Whether deploying would mend what a status reports: only a link that is
/// not there yet is created.
pub fn is_fixable(status: Status) -> (fixable: bool)
    ensures
        fixable == (status == Status::WouldCreate),
{
    match status {
        Status::WouldCreate => true,
        _ => false,
    }
}

/// The line that says whether an entry can be mended, after its label.
pub open spec fn fixable_spec(label: Seq<char>, fixable: bool) -> Seq<char> {
    if fixable {
        "  => "@ + label + " yes"@
    } else {
        "  => "@ + label + " no"@
    }
}

/// Puts the line together that says whether an entry can be mended.
pub fn fixable_line(label: &str, fixable: bool) -> (line: String)
    ensures
        line@ == fixable_spec(label@, fixable),
{
    let mut line = "  => ".to_owned();
    line.append(label);
    if fixable {
        line.append(" yes");
    } else {
        line.append(" no");
    }
    line
}

/// The label of the line that says whether an entry can be mended.
pub open spec fn fixable_label() -> Seq<char> {
    "fixable:"@
}

/// The line that says whether an entry can be mended, with a dimmed label.
pub fn print_fixable(fixable: bool) -> (line: String)
    ensures
        exists|label: Seq<char>|
            line@ == fixable_spec(label, fixable) && renders(dimmed_on(), fixable_label(), label),
{
    proof {
        reveal_strlit("fixable:");
    }
    let label = dimmed("fixable:");
    let line = fixable_line(label.as_str(), fixable);
    assert(line@ == fixable_spec(label@, fixable) && renders(
        dimmed_on(),
        fixable_label(),
        label@,
    ));
    line
}

/// The warning for an entry that failed.
pub open spec fn error_line_spec(target: Seq<char>, error: EntryError) -> Seq<char> {
    match error {
        EntryError::Precondition(PreconditionError::NotASymlink) =>
            "WARNING: Cannot handle path (not symlink): "@ + target,
        EntryError::Precondition(PreconditionError::TargetOccupied) =>
            "WARNING: Cannot deploy (target occupied): "@ + target,
        EntryError::Io(message) => "ERROR: "@ + target + ": "@ + message@,
    }
}

/// Words the failure of an entry.
pub fn error_line(target: &str, error: &EntryError) -> (line: String)
    ensures
        line@ == error_line_spec(target@, *error),
{
    match error {
        EntryError::Precondition(PreconditionError::NotASymlink) => {
            let mut line = "WARNING: Cannot handle path (not symlink): ".to_owned();
            line.append(target);
            line
        },
        EntryError::Precondition(PreconditionError::TargetOccupied) => {
            let mut line = "WARNING: Cannot deploy (target occupied): ".to_owned();
            line.append(target);
            line
        },
        EntryError::Io(message) => {
            let mut line = "ERROR: ".to_owned();
            line.append(target);
            line.append(": ");
            line.append(message.as_str());
            line
        },
    }
}

/// What is said of one entry once its step is over: its status line, always,
/// and after it the warning where the entry failed. The status is that
/// after the step: a link that was created is reported as resolved, and a
/// step that failed reports what was found.
pub fn entry_report(entry: &DotfileEntry, step: &Step, end: &Result<(), EntryError>) -> (lines:
    Vec<String>)
    ensures
        lines.len() == if end is Err {
            2int
        } else {
            1int
        },
        exists|shown: Seq<char>|
            lines[0]@ == status_line_spec(
                shown,
                entry.source@,
                step.status_after_spec(end is Ok),
            ) && is_styled(dimmed_on(), entry.target@, shown),
        end is Err ==> lines[1]@ == error_line_spec(entry.target@, end->Err_0),
{
    let mut lines: Vec<String> = Vec::new();
    let status = step.status_after(end);
    let first = format_status_line(entry.source.as_str(), entry.target.as_str(), status);
    let ghost shown = choose|shown: Seq<char>|
        first@ == status_line_spec(shown, entry.source@, status) && is_styled(
            dimmed_on(),
            entry.target@,
            shown,
        );
    lines.push(first);
    match end {
        Err(error) => {
            lines.push(error_line(entry.target.as_str(), error));
        },
        Ok(_) => {},
    }
    assert(lines[0]@ == status_line_spec(shown, entry.source@, step.status_after_spec(end is Ok))
        && is_styled(dimmed_on(), entry.target@, shown));
    lines
}

/// The words of the notice for what is not supported yet.
pub open spec fn notice_text() -> Seq<char> {
    "Not implemented"@
}

/// The notice for what is not supported yet, in italics.
pub fn not_implemented_notice() -> (notice: String)
    ensures
        is_italic_of(notice_text(), notice@),
{
    proof {
        reveal_strlit("Not implemented");
    }
    italic("Not implemented")
}

/// Whether `path` is `home` or lies below it.
pub open spec fn is_below(path: Seq<char>, home: Seq<char>) -> bool {
    &&& home.len() > 0
    &&& home.is_prefix_of(path)
    &&& (path.len() == home.len() || path[home.len() as int] == '/')
}

/// `path` as shown to the user: what lies at or below `home` is written
/// from `~/`.
pub open spec fn prettify_spec(path: Seq<char>, home: Seq<char>) -> Seq<char> {
    if is_below(path, home) {
        if path.len() == home.len() {
            "~/"@
        } else {
            "~/"@ + path.skip(home.len() as int + 1)
        }
    } else {
        path
    }
}

/// Shortens a path below `home`.
pub fn prettify_under(path: &str, home: &str) -> (shown: String)
    ensures
        shown@ == prettify_spec(path@, home@),
{
    let p = chars_of(path);
    let h = chars_of(home);
    assert(p@.subrange(0, p.len() as int) == p@);
    if h.len() > 0 && crate::text::starts_with(&p, 0, p.len(), &h) && (p.len() == h.len() || p[h.len()]
        == '/') {
        let mut shown = "~/".to_owned();
        if p.len() > h.len() {
            let rest = crate::text::string_of(&p, h.len() + 1, p.len());
            assert(p@.subrange(h.len() as int + 1, p.len() as int) == p@.skip(h.len() as int + 1));
            shown.append(rest.as_str());
        }
        shown
    } else {
        path.to_owned()
    }
}

/// Shortens a path below the home directory, where there is one. Whatever
/// the home directory is, the path comes back either as it is or written
/// from `~/`.
pub fn prettify_path(path: &str) -> (shown: String)
    ensures
        shown@ == path@ || exists|home: Seq<char>|
            is_below(path@, home) && shown@ == prettify_spec(path@, home),
{
    match home_dir() {
        Some(home) => {
            let shown = prettify_under(path, home.as_str());
            assert(shown@ == prettify_spec(path@, home@));
            shown
        },
        None => path.to_owned(),
    }
}

} // verus!
