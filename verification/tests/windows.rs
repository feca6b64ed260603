//! The pill, the conversation window, and what the display answers about
//! them.

use std::collections::HashMap;

use scufris::display::{holds, nobody_holds_the_keyboard, settled, unheld, Verdict, DEPTH};
use scufris::form::Position;
use scufris::hud;
use scufris::pill::{self, open, Opening, Step};

/// A frame that records what was done to it, in order.
#[derive(Default)]
struct RecordedOpening {
    operations: Vec<String>,
    mute: bool,
    hidden: bool,
}

impl RecordedOpening {
    fn mute() -> Self {
        Self { mute: true, ..Self::default() }
    }

    fn hidden() -> Self {
        Self { hidden: true, ..Self::default() }
    }
}

impl Opening for RecordedOpening {
    fn steps(&self) -> vstd::seq::Seq<Step> {
        vstd::seq::Seq::empty()
    }

    fn shown(&self) -> Result<(), String> {
        if self.hidden {
            return Err("the pill could not be shown".into());
        }
        Ok(())
    }

    fn refuse_keyboard(&mut self) -> Result<(), String> {
        self.operations.push("refuse-keyboard".into());
        if self.mute {
            return Err("the window would not say".into());
        }
        Ok(())
    }

    fn show(&mut self) -> Result<(), String> {
        self.operations.push("show".into());
        self.shown()
    }
}

fn scaled(logical: u32, scale: f64) -> i32 {
    (f64::from(logical) * scale).round() as i32
}

fn bottom_center(x: i32, y: i32, width: u32, height: u32, scale: f64) -> Position {
    pill::bottom_center(
        x,
        y,
        width,
        height,
        scaled(pill::WIDTH, scale),
        scaled(pill::HEIGHT, scale),
        scaled(pill::BOTTOM_MARGIN, scale),
    )
}

fn center(x: i32, y: i32, width: u32, height: u32, scale: f64) -> Position {
    hud::center(
        x,
        y,
        width,
        height,
        scaled(hud::WIDTH, scale),
        scaled(hud::HEIGHT, scale),
    )
}

/// The pill never holds the keyboard, in any phase: the refusal comes before
/// the show.
#[test]
fn the_pill_refuses_the_keys_before_it_is_shown() {
    let mut frame = RecordedOpening::default();
    assert_eq!(open(&mut frame), Ok(()));
    assert_eq!(frame.operations, ["refuse-keyboard", "show"]);
}

#[test]
fn a_pill_that_cannot_refuse_the_keyboard_is_still_put_up() {
    let mut frame = RecordedOpening::mute();
    assert_eq!(open(&mut frame), Ok(()));
    assert_eq!(frame.operations, ["refuse-keyboard", "show"]);
}

#[test]
fn what_the_show_answered_is_what_opening_answers() {
    let mut frame = RecordedOpening::hidden();
    assert_eq!(open(&mut frame), Err("the pill could not be shown".to_string()));
    assert_eq!(frame.operations, ["refuse-keyboard", "show"]);
}

#[test]
fn the_frame_is_the_size_the_page_lays_out() {
    let width = f64::from(pill::WIDTH);
    let height = f64::from(pill::HEIGHT);
    assert_eq!(width, 190.0);
    assert_eq!(height, 230.0);
    // 15 + 160 + 15 across, and 20 + 160 + 5 + 35 + 10 down.
    assert_eq!(width, 15.0 + 160.0 + 15.0);
    assert_eq!(height, 20.0 + 160.0 + 5.0 + 35.0 + 10.0);
}

#[test]
fn the_orb_stays_inside_the_blob_at_its_loudest() {
    let radius_x = f64::from(pill::WIDTH) / 2.0;
    let radius_y = f64::from(pill::HEIGHT) / 2.0;
    let orb = 160.0 * 0.44 * 1.12;
    let lift = radius_y - (20.0 + 80.0);
    for step in 0..=90 {
        let angle = f64::from(step) * std::f64::consts::PI / 180.0;
        let x = orb * angle.cos() / radius_x;
        let y = (orb * angle.sin() + lift) / radius_y;
        assert!(
            x * x + y * y < 1.0,
            "the orb reaches outside the blob at {step} degrees"
        );
    }
}

#[test]
fn the_timer_row_fits_across_the_bottom_of_the_blob() {
    let radius_x = f64::from(pill::WIDTH) / 2.0;
    let radius_y = f64::from(pill::HEIGHT) / 2.0;
    let row = 20.0 + 160.0 + 5.0;
    let baseline = row + 35.0 / 2.0 + 20.0 / 2.0;
    let across = 2.0 * radius_x * (1.0 - ((baseline - radius_y) / radius_y).powi(2)).sqrt();
    assert!(
        across > 5.0 * 20.0 * 0.6,
        "the blob is only {across} across where the timer is"
    );
}

#[test]
fn the_pill_sits_bottom_center_above_the_screen_edge() {
    let position = bottom_center(0, 0, 1920, 1080, 1.0);
    assert_eq!(position.x, (1920 - pill::WIDTH as i32) / 2);
    assert_eq!(
        position.y,
        1080 - pill::HEIGHT as i32 - pill::BOTTOM_MARGIN as i32
    );
}

#[test]
fn pill_placement_follows_the_monitor_offset_and_scale() {
    let position = bottom_center(1920, -120, 2560, 1440, 2.0);
    assert_eq!(position.x, 1920 + (2560 - (f64::from(pill::WIDTH) * 2.0) as i32) / 2);
    assert_eq!(
        position.y,
        -120 + 1440
            - (f64::from(pill::HEIGHT) * 2.0) as i32
            - (f64::from(pill::BOTTOM_MARGIN) * 2.0) as i32
    );
}

#[test]
fn a_monitor_smaller_than_the_pill_never_places_it_off_screen() {
    let position = bottom_center(0, 0, 60, 40, 1.0);
    assert_eq!(position.x, 0);
    assert_eq!(position.y, 0);
    assert_eq!(bottom_center(40, 60, 60, 40, 1.0), Position { x: 40, y: 60 });
}

#[test]
fn the_window_sits_in_the_middle_of_its_monitor() {
    let position = center(0, 0, 1920, 1080, 1.0);
    assert_eq!(position.x, (1920 - hud::WIDTH as i32) / 2);
    assert_eq!(position.y, (1080 - hud::HEIGHT as i32) / 2);
}

#[test]
fn hud_placement_follows_the_monitor_offset_and_scale() {
    let position = center(1920, -120, 2560, 1440, 2.0);
    assert_eq!(position.x, 1920 + (2560 - (f64::from(hud::WIDTH) * 2.0) as i32) / 2);
    assert_eq!(position.y, -120 + (1440 - (f64::from(hud::HEIGHT) * 2.0) as i32) / 2);
}

#[test]
fn a_monitor_too_small_for_the_window_never_places_it_off_screen() {
    assert_eq!(center(0, 0, 640, 480, 1.0), Position { x: 0, y: 0 });
    assert_eq!(center(40, 60, 640, 480, 1.0), Position { x: 40, y: 60 });
}

#[test]
fn the_window_is_the_size_the_page_lays_out() {
    assert_eq!(f64::from(hud::WIDTH), 760.0);
    assert_eq!(f64::from(hud::HEIGHT), 560.0);
}

#[test]
fn the_windows_are_known_once_the_display_has_made_them() {
    assert_eq!(pill::known_window(0), None);
    assert_eq!(pill::known_window(7), Some(7));
    assert_eq!(hud::known_window(0), None);
    assert_eq!(hud::known_window(9), Some(9));
}

/// One window tree, child to parent.
fn tree(pairs: &[(u32, u32)]) -> impl Fn(u32) -> Option<u32> {
    let parents: HashMap<u32, u32> = pairs.iter().copied().collect();
    move |child| parents.get(&child).copied()
}

#[test]
fn the_keyboard_is_held_by_the_window_that_has_it() {
    assert!(holds(0x400010, 0x400010, tree(&[])));
    assert!(!holds(0x400010, 0x400020, tree(&[])));
}

#[test]
fn the_keyboard_is_held_by_a_window_the_toolkit_put_it_inside() {
    let inside = tree(&[(0x400030, 0x400020), (0x400020, 0x400010)]);
    assert!(holds(0x400030, 0x400010, inside));
}

#[test]
fn a_keyboard_on_another_window_is_not_held_however_far_up_it_goes() {
    let elsewhere = tree(&[(0x500030, 0x500020)]);
    assert!(!holds(0x500030, 0x400010, elsewhere));
}

#[test]
fn nothing_and_the_pointers_root_hold_no_window() {
    assert!(!holds(0, 0x400010, tree(&[])));
    assert!(!holds(1, 0x400010, tree(&[])));
}

#[test]
fn a_keyboard_no_client_was_given_is_held_by_nobody() {
    assert!(unheld(0));
    assert!(unheld(1));
    assert!(!unheld(0x400010));
}

#[test]
fn a_tree_that_never_ends_is_not_walked_forever() {
    let circle = tree(&[(0x400020, 0x400030), (0x400030, 0x400020)]);
    assert!(!holds(0x400020, 0x400010, circle));
}

#[test]
fn the_walk_up_the_tree_stops_at_its_bound() {
    // A chain exactly as deep as the bound is followed; one deeper is not.
    let chain: Vec<(u32, u32)> = (0..DEPTH as u32).map(|k| (100 + k, 101 + k)).collect();
    let top = 100 + DEPTH as u32 - 1;
    assert!(holds(100, top, tree(&chain)));
    assert!(!holds(100, top + 1, tree(&chain)));
}

#[test]
fn a_display_nothing_can_be_asked_of_is_never_a_reason_to_take_the_keys() {
    assert_eq!(nobody_holds_the_keyboard(false, Some(0)), Verdict::Unsure);
    assert_eq!(nobody_holds_the_keyboard(true, None), Verdict::Unsure);
    assert_eq!(nobody_holds_the_keyboard(true, Some(1)), Verdict::Yes);
    assert_eq!(nobody_holds_the_keyboard(true, Some(0x400010)), Verdict::No);
    assert_eq!(settled(Verdict::Yes, Verdict::Yes), Verdict::Yes);
    assert_eq!(settled(Verdict::No, Verdict::No), Verdict::Yes);
    assert_eq!(settled(Verdict::Unsure, Verdict::Yes), Verdict::Unsure);
    assert_eq!(settled(Verdict::No, Verdict::Yes), Verdict::No);
}
