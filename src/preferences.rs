//! The user's choices that the filters and the centering read.
use vstd::prelude::*;

verus! {

/// The user-defined preferences. Built once at startup and passed to whatever reads
/// them.
#[derive(Debug, Clone, Copy, PartialEq, Eq, Structural)]
pub struct Preferences {
    /// Keep windows that carry the child style.
    pub allow_child_ws: bool,
    /// Keep windows that carry the popup style.
    pub allow_popup_ws: bool,
    /// The colour of the overlay, as `0xRRGGBB`.
    pub overlay_color: u32,
    /// Center on the full bounds of the monitor rather than on its work area.
    pub use_absolute_area: bool,
}

impl Default for Preferences {
    fn default() -> (r: Preferences)
        ensures
            r == (Preferences {
                allow_child_ws: true,
                allow_popup_ws: false,
                overlay_color: 0,
                use_absolute_area: false,
            }),
    {
        Preferences {
            allow_child_ws: true,
            allow_popup_ws: false,
            overlay_color: 0,
            use_absolute_area: false,
        }
    }
}

} // verus!
