//! What stands at a path: one of four kinds, decided from what the
//! filesystem reports about it.

use vstd::prelude::*;

verus! {

/// The kind of thing found at a path.
#[derive(Clone, Copy, Debug, PartialEq, Eq, Structural)]
pub enum PathKind {
    Symlink,
    File,
    Directory,
    Missing,
}

/// What the filesystem answers about one path. `is_symlink` is asked of the
/// path itself; `is_file`, `is_dir` and `exists` are asked after following
/// links, so a link to a directory answers `true` to both `is_symlink` and
/// `is_dir`, and a broken link answers `true` to `is_symlink` alone.
#[derive(Clone, Copy, Debug, PartialEq, Eq, Structural)]
pub struct PathProbe {
    pub is_symlink: bool,
    pub is_file: bool,
    pub is_dir: bool,
    pub exists: bool,
}

/// The kind that a probe stands for. Link-ness is asked first, so a link is a
/// `Symlink` whatever it points at, or fails to point at. Anything else that
/// exists without being a directory (a regular file, a socket, a device) is a
/// `File`: real data that no verb may touch.
pub open spec fn classify_spec(probe: PathProbe) -> PathKind {
    if probe.is_symlink {
        PathKind::Symlink
    } else if probe.is_dir {
        PathKind::Directory
    } else if probe.is_file || probe.exists {
        PathKind::File
    } else {
        PathKind::Missing
    }
}

/// Classifies a path from its probe.
pub fn classify(probe: PathProbe) -> (kind: PathKind)
    ensures
        kind == classify_spec(probe),
        probe.is_symlink <==> kind == PathKind::Symlink,
        kind == PathKind::Missing <==> !probe.is_symlink && !probe.is_dir && !probe.is_file
            && !probe.exists,
{
    if probe.is_symlink {
        PathKind::Symlink
    } else if probe.is_dir {
        PathKind::Directory
    } else if probe.is_file || probe.exists {
        PathKind::File
    } else {
        PathKind::Missing
    }
}

} // verus!
