//! The state of the script picker and what each key does to it. Drawing and
//! reading keys are the caller's part.

use vstd::prelude::*;
use crate::path::{join, join_spec};

verus! {

/// The pane that has the focus.
#[derive(Clone, Copy, Debug, PartialEq, Eq, Structural)]
pub enum Selected {
    Left,
    Right,
}

/// A key as the picker tells keys apart.
#[derive(Clone, Copy, Debug, PartialEq, Eq, Structural)]
pub enum Key {
    Char(char),
    Tab,
    Enter,
    Other,
}

/// What the picker has come to after a key.
#[derive(Clone, Debug)]
pub enum Picked {
    /// Nothing is settled yet.
    Pending,
    /// The user left without choosing.
    Cancelled,
    /// The user chose this path.
    Chosen(String),
}

/// The picker: the scripts of a directory by name, the one the cursor is on,
/// and what the viewer shows of it.
#[derive(Clone, Debug)]
pub struct App {
    pub active_pane: Selected,
    pub path_dir: String,
    pub dirnames: Vec<String>,
    pub selected_file_index: usize,
    pub viewer_content: String,
}

impl App {
    /// A picker on the first name, with the focus on the left and an empty
    /// viewer.
    pub fn new(dir: String, dirnames: Vec<String>) -> (app: App)
        ensures
            app.active_pane == Selected::Left,
            app.path_dir == dir,
            app.dirnames == dirnames,
            app.selected_file_index == 0,
            app.viewer_content@ == Seq::<char>::empty(),
    {
        App {
            active_pane: Selected::Left,
            path_dir: dir,
            dirnames,
            selected_file_index: 0,
            viewer_content: String::new(),
        }
    }

    /// Whether the cursor is on a name.
    pub open spec fn on_a_name(self) -> bool {
        self.selected_file_index < self.dirnames.len()
    }

    /// The path of the name under the cursor.
    pub open spec fn selected_path(self) -> Seq<char>
        recommends
            self.on_a_name(),
    {
        join_spec(self.path_dir@, self.dirnames[self.selected_file_index as int]@)
    }

    /// The picker after `key`, before the viewer is brought up to date.
    pub open spec fn moved(self, key: Key) -> App {
        match key {
            Key::Char('k') => if self.selected_file_index > 0 {
                App { selected_file_index: (self.selected_file_index - 1) as usize, ..self }
            } else {
                self
            },
            Key::Char('j') => if self.selected_file_index + 1 < self.dirnames.len() {
                App { selected_file_index: (self.selected_file_index + 1) as usize, ..self }
            } else {
                self
            },
            Key::Tab => App {
                active_pane: match self.active_pane {
                    Selected::Left => Selected::Right,
                    Selected::Right => Selected::Left,
                },
                ..self
            },
            _ => self,
        }
    }
}

/// Brings the viewer up to date: it shows the path of the name under the
/// cursor. Without a name under the cursor nothing changes.
pub fn update_viewer(app: &mut App)
    ensures
        final(app).active_pane == old(app).active_pane,
        final(app).path_dir == old(app).path_dir,
        final(app).dirnames == old(app).dirnames,
        final(app).selected_file_index == old(app).selected_file_index,
        old(app).on_a_name() ==> final(app).viewer_content@ == old(app).selected_path(),
        !old(app).on_a_name() ==> final(app).viewer_content == old(app).viewer_content,
{
    if app.selected_file_index < app.dirnames.len() {
        let path = join(app.path_dir.as_str(), app.dirnames[app.selected_file_index].as_str());
        app.viewer_content = path;
    }
}

/// What a key does. `q` leaves, `k` and `j` move the cursor up and down
/// within the list, Tab changes the pane, and Enter chooses the name under
/// the cursor. Moving brings the viewer up to date; any other key, and Enter
/// without a name under the cursor, does nothing.
pub fn on_key(app: &mut App, key: Key) -> (picked: Picked)
    ensures
        final(app).path_dir == old(app).path_dir,
        final(app).dirnames == old(app).dirnames,
        final(app).active_pane == old(app).moved(key).active_pane,
        final(app).selected_file_index == old(app).moved(key).selected_file_index,
        match key {
            Key::Char('q') => picked is Cancelled && *final(app) == *old(app),
            Key::Enter => *final(app) == *old(app) && if old(app).on_a_name() {
                picked is Chosen && picked->Chosen_0@ == old(app).selected_path()
            } else {
                picked is Pending
            },
            Key::Char('k') | Key::Char('j') => {
                &&& picked is Pending
                &&& final(app).on_a_name() ==> final(app).viewer_content@
                    == final(app).selected_path()
                &&& !final(app).on_a_name() ==> final(app).viewer_content
                    == old(app).viewer_content
            },
            _ => picked is Pending && final(app).viewer_content == old(app).viewer_content,
        },
{
    match key {
        Key::Char(c) => {
            if c == 'q' {
                Picked::Cancelled
            } else if c == 'k' {
                if app.selected_file_index > 0 {
                    app.selected_file_index = app.selected_file_index - 1;
                }
                update_viewer(app);
                Picked::Pending
            } else if c == 'j' {
                if app.selected_file_index < app.dirnames.len() && app.selected_file_index + 1
                    < app.dirnames.len() {
                    app.selected_file_index = app.selected_file_index + 1;
                }
                update_viewer(app);
                Picked::Pending
            } else {
                Picked::Pending
            }
        },
        Key::Tab => {
            app.active_pane = match app.active_pane {
                Selected::Left => Selected::Right,
                Selected::Right => Selected::Left,
            };
            Picked::Pending
        },
        Key::Enter => {
            if app.selected_file_index < app.dirnames.len() {
                Picked::Chosen(
                    join(app.path_dir.as_str(), app.dirnames[app.selected_file_index].as_str()),
                )
            } else {
                Picked::Pending
            }
        },
        Key::Other => Picked::Pending,
    }
}

} // verus!
