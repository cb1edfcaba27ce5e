//! The command line of the session manager.

use vstd::prelude::*;

verus! {

/// Which display server the session runs on.
#[derive(Debug, Clone, Copy, PartialEq, Eq, Structural)]
pub enum DisplayMode {
    X11,
    Wayland,
}

/// The arguments `d5` is started with.
#[derive(Debug)]
pub struct D5Entrypoint {
    /// Name of the session, which names its configuration file.
    pub session: String,
    /// Display mode: either "x11" or "wayland" (default "x11").
    pub display: DisplayMode,
}

impl Default for DisplayMode {
    /// The display mode used when none is given on the command line.
    fn default() -> (mode: Self)
        ensures
            mode == DisplayMode::X11,
    {
        DisplayMode::X11
    }
}

} // verus!
