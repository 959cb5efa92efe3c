//! Displays as the windowing host reports them, and the choice of the one
//! that the presenter window covers.

use vstd::prelude::*;

verus! {

/// One attached display: its size and the position of its top-left corner
/// in the host's screen space, both in pixels.
#[derive(Debug, Clone, Copy, PartialEq, Eq, Structural)]
pub struct MonitorDescriptor {
    pub width: u32,
    pub height: u32,
    pub x: i32,
    pub y: i32,
}

/// Size and position asked of a window.
#[derive(Debug, Clone, Copy, PartialEq, Eq, Structural)]
pub struct WindowGeometry {
    pub width: u32,
    pub height: u32,
    pub x: i32,
    pub y: i32,
}

/// The geometry that covers `monitor` exactly.
pub open spec fn covering(monitor: MonitorDescriptor) -> WindowGeometry {
    WindowGeometry { width: monitor.width, height: monitor.height, x: monitor.x, y: monitor.y }
}

/// The geometry of the presenter window on the displays `monitors`, taken
/// in the order in which the host lists them: the first is the primary one
/// and the second the secondary one, wherever they stand. With two or more
/// the window covers the second; with fewer it gets no geometry of its own.
pub open spec fn secondary_geometry(monitors: Seq<MonitorDescriptor>) -> Option<WindowGeometry> {
    if monitors.len() >= 2 {
        Some(covering(monitors[1]))
    } else {
        None
    }
}

/// Chooses the geometry of the presenter window. The list is taken as it
/// is: nothing is sorted by position.
pub fn select_geometry(monitors: &Vec<MonitorDescriptor>) -> (geometry: Option<WindowGeometry>)
    ensures
        geometry == secondary_geometry(monitors@),
{
    if monitors.len() > 1 {
        let secondary = &monitors[1];
        Some(
            WindowGeometry {
                width: secondary.width,
                height: secondary.height,
                x: secondary.x,
                y: secondary.y,
            },
        )
    } else {
        None
    }
}

/// Only the second display counts: the others may be anything, and any
/// number may follow.
pub proof fn lemma_only_second_counts(a: Seq<MonitorDescriptor>, b: Seq<MonitorDescriptor>)
    requires
        a.len() >= 2,
        b.len() >= 2,
        a[1] == b[1],
    ensures
        secondary_geometry(a) == secondary_geometry(b),
{
}

} // verus!
