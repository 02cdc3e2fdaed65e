//! Pixel sizes shared by every page of the window.

use vstd::prelude::*;

verus! {

/// Default margin around content areas (pixels)
pub const DEFAULT_MARGIN: i32 = 12;

/// Spacing between sections within a view (pixels)
pub const SECTION_SPACING: i32 = 12;

/// Spacing between rows in a list
pub const ROW_SPACING: i32 = 6;

/// Width of the navigation sidebar
pub const SIDEBAR_WIDTH: i32 = 220;

/// Initial width for the recipe/ingredient list pane
pub const LIST_PANE_WIDTH: i32 = 280;

/// Default window width
pub const DEFAULT_WINDOW_WIDTH: i32 = 1200;

/// Default window height
pub const DEFAULT_WINDOW_HEIGHT: i32 = 720;

} // verus!
