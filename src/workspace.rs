use vstd::prelude::*;

use crate::path::FsPath;

verus! {

/// Where the project lives: what the rest of the library reads of the
/// project's metadata.
pub struct Workspace {
    /// Root directory of the workspace.
    pub workspace_root: FsPath,
    /// Directory of the build artifacts, `target` by default.
    pub target_directory: FsPath,
}

} // verus!
