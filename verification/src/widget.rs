//! Placement of the floating widget window: bottom-centre of a monitor's
//! work area.
use vstd::prelude::*;

verus! {

/// Width of the floating widget window, in physical pixels.
pub const WIDGET_WIDTH: u32 = 640;

/// Height of the floating widget window, in physical pixels.
pub const WIDGET_HEIGHT: u32 = 320;

/// The top-left corner that centres the widget horizontally on the monitor
/// and rests it on the monitor's bottom edge.
pub fn widget_position(monitor_x: i32, monitor_y: i32, monitor_width: u32, monitor_height: u32) -> (pos: (
    i32,
    i32,
))
    requires
        WIDGET_WIDTH <= monitor_width <= i32::MAX,
        WIDGET_HEIGHT <= monitor_height <= i32::MAX,
        i32::MIN <= monitor_x + (monitor_width - WIDGET_WIDTH) / 2 <= i32::MAX,
        i32::MIN <= monitor_y + (monitor_height - WIDGET_HEIGHT) <= i32::MAX,
    ensures
        pos.0 == monitor_x + (monitor_width - WIDGET_WIDTH) / 2,
        pos.1 == monitor_y + (monitor_height - WIDGET_HEIGHT),
{
    let x = monitor_x + ((monitor_width as i32) - (WIDGET_WIDTH as i32)) / 2;
    let y = monitor_y + ((monitor_height as i32) - (WIDGET_HEIGHT as i32));
    (x, y)
}

} // verus!
