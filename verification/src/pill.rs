//! The always-on-top bottom-centre orb window: its frame, where it rests, and
//! the order it is put up in.
//!
//! Positioning is a pure calculation so the bottom-centre placement holds
//! without a display. The sizes here are logical pixels; the placement works
//! in the physical pixels a monitor's scale makes of them.
use vstd::prelude::*;

use crate::form::Position;

verus! {

/// Stable window label.
pub const LABEL: &'static str = "pill";

/// Pill width in logical pixels: fifteen either side of the 160 pixel orb,
/// exactly what the page lays out.
pub const WIDTH: u32 = 190;

/// Pill height in logical pixels: the orb, and the listening timer's row
/// reserved in every state.
pub const HEIGHT: u32 = 230;

/// Gap between the pill and the bottom edge of the screen, in logical pixels.
pub const BOTTOM_MARGIN: u32 = 72;

/// How far below its resting spot the pill starts an entrance, in logical
/// pixels.
pub const RISE: u32 = 70;

/// How many positions one entrance steps through.
pub const RISE_STEPS: u32 = 13;

/// How long one entrance step waits, in milliseconds.
pub const RISE_STEP_MILLIS: u64 = 16;

/// Where the pill rests on one monitor, given its width, height and bottom
/// margin in the monitor's physical pixels: centred across, standing off the
/// bottom edge, and never above the monitor's top or left of its left edge.
pub open spec fn bottom_centre(monitor_x: int, monitor_y: int, monitor_width: int, monitor_height: int, width: int, height: int, margin: int) -> (int, int) {
    let across = crate::form::half(monitor_width - width);
    let x = monitor_x + if across > 0 {
        across
    } else {
        0
    };
    let down = monitor_y + monitor_height - height - margin;
    let y = if down > monitor_y {
        down
    } else {
        monitor_y
    };
    (x, y)
}

/// Returns the physical bottom-centre position of the pill on one monitor,
/// for a pill of `width` by `height` standing `margin` off the bottom edge.
pub fn bottom_center(
    monitor_x: i32,
    monitor_y: i32,
    monitor_width: u32,
    monitor_height: u32,
    width: i32,
    height: i32,
    margin: i32,
) -> (r: Position)
    requires
        monitor_width <= i32::MAX,
        monitor_height <= i32::MAX,
        i32::MIN <= monitor_width - width <= i32::MAX,
        i32::MIN <= monitor_x + crate::form::half(monitor_width - width) <= i32::MAX,
        monitor_x <= i32::MAX - monitor_width / 2,
        i32::MIN <= monitor_y + monitor_height <= i32::MAX,
        i32::MIN <= monitor_y + monitor_height - height <= i32::MAX,
        i32::MIN <= monitor_y + monitor_height - height - margin <= i32::MAX,
    ensures
        (r.x as int, r.y as int) == bottom_centre(
            monitor_x as int,
            monitor_y as int,
            monitor_width as int,
            monitor_height as int,
            width as int,
            height as int,
            margin as int,
        ),
{
    let across = (monitor_width as i32 - width) / 2;
    let x = monitor_x + if across > 0 {
        across
    } else {
        0
    };
    let down = monitor_y + monitor_height as i32 - height - margin;
    let y = if down > monitor_y {
        down
    } else {
        monitor_y
    };
    Position { x, y }
}

/// Answers what the display knows the pill by, once it has made a window: the
/// display's number for it, where nothing is made yet reads as zero.
pub fn known_window(raw: u32) -> (r: Option<u32>)
    ensures
        r == if raw == 0 {
            None
        } else {
            Some(raw)
        },
{
    if raw == 0 {
        None
    } else {
        Some(raw)
    }
}

/// One operation on the pill's window.
#[derive(Debug, Clone, Copy, PartialEq, Eq)]
pub enum Step {
    /// The window was told it wants nothing from the keyboard.
    Refuse,
    /// The window was put on screen.
    Show,
}

/// The two window operations whose order is the keyboard contract, apart so
/// the order they run in holds without a display. A frame keeps the record
/// of what was done to it.
pub trait Opening {
    /// Every operation done to this frame, oldest first.
    spec fn steps(&self) -> Seq<Step>;

    /// What putting this frame on screen answers.
    spec fn shown(&self) -> Result<(), String>;

    /// Says that the pill wants nothing from the keyboard.
    fn refuse_keyboard(&mut self) -> (r: Result<(), String>)
        ensures
            final(self).steps() == old(self).steps().push(Step::Refuse),
            final(self).shown() == old(self).shown(),
    ;

    /// Puts the pill on screen, and answers what [`Opening::shown`] names.
    fn show(&mut self) -> (r: Result<(), String>)
        ensures
            r == old(self).shown(),
            final(self).steps() == old(self).steps().push(Step::Show),
    ;
}

/// Says that the pill wants nothing from the keyboard, then puts it on
/// screen: in that order, once each, and every time, because a window
/// manager reads whether a window will take the keyboard when the window is
/// mapped. A pill that could not refuse the keyboard is still put up: it is
/// the privacy indicator, and what the show answered is the answer.
pub fn open<F: Opening>(frame: &mut F) -> (r: Result<(), String>)
    ensures
        final(frame).steps() == old(frame).steps() + seq![Step::Refuse, Step::Show],
        r == old(frame).shown(),
{
    let _refused = frame.refuse_keyboard();
    let r = frame.show();
    proof {
        assert(old(frame).steps().push(Step::Refuse).push(Step::Show) =~= old(frame).steps() + seq![
            Step::Refuse,
            Step::Show,
        ]);
    }
    r
}

} // verus!
