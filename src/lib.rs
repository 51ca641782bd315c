//! Discovery of user-facing top-level windows, the geometry that places them on a
//! multi-monitor virtual desktop, centering of a window on its monitor, and the
//! pointer hit-testing that drives a highlighting overlay.
//!
//! Everything here works on plain values. The operating-system queries (window
//! styles, titles, bounds, monitor areas) and the reposition command are carried
//! out by the caller, which hands their results to these functions.
pub mod desktop;
pub mod error;
pub mod geometry;
pub mod monitor;
pub mod preferences;
pub mod window;

pub use desktop::{calculate_display_area, VirtualDesktopArea};
pub use error::WindowError;
pub use hit_test::ClipCache;
pub use geometry::{Position, RawRect, Rect, Size};
pub use monitor::{MonitorAreas, MonitorInfo};
pub use preferences::Preferences;
pub use window::{get_windows, RepositionCommand, WindowInfo, WindowProbe};
