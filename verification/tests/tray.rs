//! The tray's colours, icon and words.

use std::collections::HashSet;

use scufris::tray::{
    cues_label, icon_rgba, shows_privacy_indicator, state_color, summoned, tooltip, ICON_SIZE,
    MENU_CHAT, MENU_CUES, MENU_QUIT, MENU_RESTART, MENU_STATUS, MENU_SUMMON, MENU_VOICE,
};

const STATES: [&str; 7] = [
    "idle",
    "listening",
    "transcribing",
    "working",
    "speaking",
    "attention",
    "error",
];

#[test]
fn every_tray_state_has_its_own_colour() {
    let colours: HashSet<[u8; 3]> = STATES
        .iter()
        .chain(["disconnected"].iter())
        .map(|state| state_color(state))
        .collect();
    assert_eq!(colours.len(), STATES.len() + 1);
}

#[test]
fn the_icon_is_a_full_rgba_bitmap_that_differs_per_state() {
    let idle = icon_rgba("idle");
    assert_eq!(idle.len(), (ICON_SIZE * ICON_SIZE * 4) as usize);
    for state in STATES {
        assert_eq!(icon_rgba(state).len(), idle.len());
        if state != "idle" {
            assert_ne!(icon_rgba(state), idle, "{state} looks like idle");
        }
    }
}

#[test]
fn recording_always_draws_the_privacy_indicator() {
    assert!(shows_privacy_indicator("listening"));
    assert!(!shows_privacy_indicator("working"));
    let listening = icon_rgba("listening");
    let ring_pixel = |x: u32, y: u32| {
        let offset = ((y * ICON_SIZE + x) * 4) as usize;
        [
            listening[offset],
            listening[offset + 1],
            listening[offset + 2],
            listening[offset + 3],
        ]
    };
    assert_eq!(ring_pixel(ICON_SIZE / 2, 2), [0xF4, 0x38, 0x41, 0xFF]);
    assert_eq!(
        icon_rgba("working")[((2 * ICON_SIZE + ICON_SIZE / 2) * 4) as usize + 3],
        0
    );
}

#[test]
fn the_cue_switch_offers_the_opposite_of_the_current_enablement() {
    assert_eq!(cues_label(true), "Mute sound cues");
    assert_eq!(cues_label(false), "Unmute sound cues");
}

#[test]
fn red_is_reserved_for_error_and_the_mic_ring() {
    assert_eq!(state_color("error"), [0xF4, 0x38, 0x41]);
    for state in STATES {
        if state != "error" {
            assert_ne!(state_color(state), state_color("error"), "{state}");
        }
    }
}

#[test]
fn a_summon_item_names_its_widget_and_nothing_else_does() {
    assert_eq!(summoned(&format!("{MENU_SUMMON}timer")), Some("timer"));
    for id in [
        MENU_CHAT,
        MENU_VOICE,
        MENU_STATUS,
        MENU_RESTART,
        MENU_CUES,
        MENU_QUIT,
    ] {
        assert_eq!(summoned(id), None, "{id}");
    }
}

#[test]
fn tooltips_name_the_state_and_carry_the_detail() {
    assert_eq!(
        tooltip("attention", "job 1 is blocked"),
        "Scufris needs you: job 1 is blocked"
    );
    assert_eq!(tooltip("idle", ""), "Scufris is idle");
    assert_eq!(
        tooltip("disconnected", "The Scufris backend is unavailable."),
        "Scufris backend unavailable: The Scufris backend is unavailable."
    );
}

#[test]
fn the_middle_of_the_icon_carries_the_state_colour() {
    for state in STATES.iter().chain(["disconnected"].iter()) {
        let icon = icon_rgba(state);
        let offset = ((15 * ICON_SIZE + 15) * 4) as usize;
        let colour = state_color(state);
        assert_eq!(
            [icon[offset], icon[offset + 1], icon[offset + 2], icon[offset + 3]],
            [colour[0], colour[1], colour[2], 0xFF],
            "{state}"
        );
    }
    // An unknown state is drawn as idle.
    assert_eq!(state_color("bewildered"), state_color("idle"));
}
