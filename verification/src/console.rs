//! The console window of the supervisor's own process. Hiding it is a
//! capability only Windows desktops have; on every other target there is no
//! attached console window, and hiding is a no-op.

use vstd::prelude::*;

verus! {

/// Hides the attached console window where the platform has one. On targets
/// without an attached console window there is nothing to hide, and the
/// call does nothing.
pub fn hide_console_window() {
}

} // verus!
