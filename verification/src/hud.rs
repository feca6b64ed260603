//! The conversation window: its frame and where it stands.
//!
//! Centred rather than pinned to an edge: this is the window the person reads
//! and types in, so it belongs where they are already looking.
use vstd::prelude::*;

use crate::form::{half, Position};

verus! {

/// Stable window label.
pub const LABEL: &'static str = "hud";

/// One line of the conversation, pushed as it arrives.
pub const SAID_EVENT: &'static str = "scufris://said";

/// The whole conversation, pushed when the service comes back.
pub const RESET_EVENT: &'static str = "scufris://conversation";

/// What the window is waiting for, pushed when it changes.
pub const NOTICE_EVENT: &'static str = "scufris://notice";

/// Window width in logical pixels, exactly what the page lays out.
pub const WIDTH: u32 = 760;

/// Window height in logical pixels: room for a dozen short lines above the
/// field.
pub const HEIGHT: u32 = 560;

/// Where the window stands on one monitor, given its width and height in the
/// monitor's physical pixels: centred, with its corner never off the
/// monitor's top or left.
pub open spec fn centred(monitor_x: int, monitor_y: int, monitor_width: int, monitor_height: int, width: int, height: int) -> (int, int) {
    let across = half(monitor_width - width);
    let down = half(monitor_height - height);
    (monitor_x + if across > 0 {
        across
    } else {
        0
    }, monitor_y + if down > 0 {
        down
    } else {
        0
    })
}

/// Returns the physical position of the window, centred on its monitor, for a
/// window of `width` by `height` physical pixels.
pub fn center(monitor_x: i32, monitor_y: i32, monitor_width: u32, monitor_height: u32, width: i32, height: i32) -> (r: Position)
    requires
        monitor_width <= i32::MAX,
        monitor_height <= i32::MAX,
        i32::MIN <= monitor_width - width <= i32::MAX,
        i32::MIN <= monitor_height - height <= i32::MAX,
        monitor_x + monitor_width / 2 <= i32::MAX,
        monitor_y + monitor_height / 2 <= i32::MAX,
        width >= 0,
        height >= 0,
    ensures
        (r.x as int, r.y as int) == centred(
            monitor_x as int,
            monitor_y as int,
            monitor_width as int,
            monitor_height as int,
            width as int,
            height as int,
        ),
{
    let across = (monitor_width as i32 - width) / 2;
    let down = (monitor_height as i32 - height) / 2;
    let x = monitor_x + if across > 0 {
        across
    } else {
        0
    };
    let y = monitor_y + if down > 0 {
        down
    } else {
        0
    };
    Position { x, y }
}

/// Answers what the display knows the window by, once it has made one: the
/// display's number for it, where nothing is made yet reads as zero.
pub fn known_window(raw: u32) -> (r: Option<u32>)
    ensures
        r == if raw == 0 {
            None
        } else {
            Some(raw)
        },
{
    if raw == 0 {
        None
    } else {
        Some(raw)
    }
}

} // verus!
