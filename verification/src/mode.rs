//! The build configuration that selects between the two operating modes.

use vstd::prelude::*;

verus! {

/// The operating mode of the shell.
///
/// A development build expects the backend to be started by hand on the
/// fixed port; a production build picks a free port, starts the bundled
/// backend on it and looks for updates.
#[derive(Clone, Copy, Debug, PartialEq, Eq, Structural)]
pub enum BuildMode {
    Development,
    Production,
}

impl BuildMode {
    /// Maps the compiler's debug flag to the operating mode: a debug build is
    /// a development build, a release build a production build.
    pub fn from_debug_assertions(debug: bool) -> (mode: BuildMode)
        ensures
            debug ==> mode == BuildMode::Development,
            !debug ==> mode == BuildMode::Production,
    {
        if debug {
            BuildMode::Development
        } else {
            BuildMode::Production
        }
    }
}

} // verus!
