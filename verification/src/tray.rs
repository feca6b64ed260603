//! Tray state colours, the tray icon bitmap, and the tray's words.
//!
//! The icon is drawn from the state name so every state has a distinct colour
//! without shipping one image per state. Recording always draws the red
//! privacy ring, whatever the service reports.
use vstd::prelude::*;
use vstd::string::StringExecFns;

use crate::text::same;

verus! {

/// Tray icon edge length in pixels.
pub const ICON_SIZE: u32 = 32;

/// Stable tray identifier.
pub const TRAY_ID: &'static str = "scufris-desktop";

/// Menu item identifiers the tray reports.
pub const MENU_CHAT: &'static str = "chat";
pub const MENU_VOICE: &'static str = "voice";
pub const MENU_STATUS: &'static str = "status";
pub const MENU_RESTART: &'static str = "restart";
pub const MENU_CUES: &'static str = "cues";
pub const MENU_QUIT: &'static str = "quit";

/// What a summon item's identifier starts with, before the widget identifier.
pub const MENU_SUMMON: &'static str = "summon:";

/// The widget a menu identifier summons, if it is a summon item.
pub open spec fn summoned_by(id: Seq<char>) -> Option<Seq<char>> {
    let n = MENU_SUMMON@.len();
    if id.len() >= n && id.subrange(0, n as int) == MENU_SUMMON@ {
        Some(id.skip(n as int))
    } else {
        None
    }
}

/// Returns the widget one summon item is for, or nothing if it is not one.
pub fn summoned(id: &str) -> (r: Option<&str>)
    ensures
        match r {
            Some(w) => summoned_by(id@) == Some(w@),
            None => summoned_by(id@) is None,
        },
{
    let n = MENU_SUMMON.unicode_len();
    let m = id.unicode_len();
    if m < n {
        return None;
    }
    if !same(id.substring_char(0, n), MENU_SUMMON) {
        return None;
    }
    Some(id.substring_char(n, m))
}

/// The opaque colour that identifies one tray state: yellow listening, brown
/// transcribing, niagara working, green speaking, wisteria attention, red for
/// error alone, and grey for the rest.
pub open spec fn color_of(state: Seq<char>) -> Seq<u8> {
    if state == "listening"@ {
        seq![0xFFu8, 0xDDu8, 0x33u8]
    } else if state == "transcribing"@ {
        seq![0xCCu8, 0x8Cu8, 0x3Cu8]
    } else if state == "working"@ {
        seq![0x96u8, 0xA6u8, 0xC8u8]
    } else if state == "speaking"@ {
        seq![0x73u8, 0xC9u8, 0x36u8]
    } else if state == "attention"@ {
        seq![0x9Eu8, 0x95u8, 0xC7u8]
    } else if state == "error"@ {
        seq![0xF4u8, 0x38u8, 0x41u8]
    } else if state == "disconnected"@ {
        seq![0x52u8, 0x49u8, 0x4Eu8]
    } else {
        seq![0x95u8, 0xA9u8, 0x9Fu8]
    }
}

fn rgb(r: u8, g: u8, b: u8) -> (c: [u8; 3])
    ensures
        c@ == seq![r, g, b],
{
    let c = [r, g, b];
    assert(c@ =~= seq![r, g, b]);
    c
}

/// Returns the opaque colour that identifies one tray state.
pub fn state_color(state: &str) -> (r: [u8; 3])
    ensures
        r@ == color_of(state@),
{
    if same(state, "listening") {
        rgb(0xFF, 0xDD, 0x33)
    } else if same(state, "transcribing") {
        rgb(0xCC, 0x8C, 0x3C)
    } else if same(state, "working") {
        rgb(0x96, 0xA6, 0xC8)
    } else if same(state, "speaking") {
        rgb(0x73, 0xC9, 0x36)
    } else if same(state, "attention") {
        rgb(0x9E, 0x95, 0xC7)
    } else if same(state, "error") {
        rgb(0xF4, 0x38, 0x41)
    } else if same(state, "disconnected") {
        rgb(0x52, 0x49, 0x4E)
    } else {
        rgb(0x95, 0xA9, 0x9F)
    }
}

/// Returns true when the state must show the recording privacy indicator.
pub fn shows_privacy_indicator(state: &str) -> (r: bool)
    ensures
        r == (state@ == "listening"@),
{
    same(state, "listening")
}

/// Four times the squared distance of pixel `(x, y)` from the icon's centre,
/// so the arithmetic stays in whole numbers: the centre sits at 15.5.
pub open spec fn spread(x: int, y: int) -> int {
    (2 * x - 31) * (2 * x - 31) + (2 * y - 31) * (2 * y - 31)
}

/// Channel `c` of pixel `(x, y)` of the icon for one state: the red ring
/// between radius 12 and 15 while recording, the state's colour inside radius
/// 11, and transparency everywhere else.
pub open spec fn icon_channel(state: Seq<char>, x: int, y: int, c: int) -> u8 {
    let d = spread(x, y);
    if state == "listening"@ && 576 < d && d <= 900 {
        seq![0xF4u8, 0x38u8, 0x41u8, 0xFFu8][c]
    } else if d <= 484 {
        if c == 3 {
            0xFFu8
        } else {
            color_of(state)[c]
        }
    } else {
        0u8
    }
}

/// Byte `i` of the icon's RGBA bitmap, rows top to bottom.
pub open spec fn icon_byte(state: Seq<char>, i: int) -> u8 {
    let p = i / 4;
    icon_channel(state, p % 32, p / 32, i % 4)
}

/// Draws the tray icon for one state as RGBA bytes.
pub fn icon_rgba(state: &str) -> (r: Vec<u8>)
    ensures
        r@.len() == 4096,
        forall|i: int| 0 <= i < 4096 ==> r@[i] == icon_byte(state@, i),
{
    let color = state_color(state);
    let privacy = shows_privacy_indicator(state);
    let mut pixels: Vec<u8> = Vec::with_capacity(4096);
    let mut p: usize = 0;
    while p < 1024
        invariant
            p <= 1024,
            color@ == color_of(state@),
            privacy == (state@ == "listening"@),
            pixels@.len() == 4 * p,
            forall|i: int| 0 <= i < 4 * p ==> pixels@[i] == icon_byte(state@, i),
        decreases 1024 - p,
    {
        let x = (p % 32) as i32;
        let y = (p / 32) as i32;
        let dx = 2 * x - 31;
        let dy = 2 * y - 31;
        assert(-31 <= dx <= 31 && -31 <= dy <= 31);
        assert(0 <= dx * dx <= 961) by (nonlinear_arith)
            requires
                -31 <= dx <= 31,
        ;
        assert(0 <= dy * dy <= 961) by (nonlinear_arith)
            requires
                -31 <= dy <= 31,
        ;
        let d = dx * dx + dy * dy;
        let pixel: [u8; 4] = if privacy && 576 < d && d <= 900 {
            [0xF4, 0x38, 0x41, 0xFF]
        } else if d <= 484 {
            [color[0], color[1], color[2], 0xFF]
        } else {
            [0, 0, 0, 0]
        };
        let ghost before = pixels@;
        pixels.push(pixel[0]);
        pixels.push(pixel[1]);
        pixels.push(pixel[2]);
        pixels.push(pixel[3]);
        proof {
            assert(d == spread(x as int, y as int));
            assert forall|i: int| 0 <= i < 4 * (p + 1) implies pixels@[i] == icon_byte(state@, i) by {
                if i >= 4 * p {
                    let c = i - 4 * p;
                    assert(i / 4 == p as int);
                    assert(i % 4 == c);
                    assert(pixels@[i] == pixel@[c]);
                } else {
                    assert(pixels@[i] == before[i]);
                }
            }
        }
        p = p + 1;
    }
    pixels
}

/// The headline the tray gives one state.
pub open spec fn headline_of(state: Seq<char>) -> Seq<char> {
    if state == "listening"@ {
        "Scufris is recording"@
    } else if state == "transcribing"@ {
        "Scufris is transcribing"@
    } else if state == "working"@ {
        "Scufris is working"@
    } else if state == "speaking"@ {
        "Scufris is speaking"@
    } else if state == "attention"@ {
        "Scufris needs you"@
    } else if state == "error"@ {
        "Scufris reported an error"@
    } else if state == "disconnected"@ {
        "Scufris backend unavailable"@
    } else {
        "Scufris is idle"@
    }
}

fn headline(state: &str) -> (r: &'static str)
    ensures
        r@ == headline_of(state@),
{
    if same(state, "listening") {
        "Scufris is recording"
    } else if same(state, "transcribing") {
        "Scufris is transcribing"
    } else if same(state, "working") {
        "Scufris is working"
    } else if same(state, "speaking") {
        "Scufris is speaking"
    } else if same(state, "attention") {
        "Scufris needs you"
    } else if same(state, "error") {
        "Scufris reported an error"
    } else if same(state, "disconnected") {
        "Scufris backend unavailable"
    } else {
        "Scufris is idle"
    }
}

/// Returns the tray tooltip for one state and detail: the headline, and the
/// detail after a colon when there is one.
pub fn tooltip(state: &str, detail: &str) -> (r: String)
    ensures
        r@ == if detail@.len() == 0 {
            headline_of(state@)
        } else {
            headline_of(state@) + ": "@ + detail@
        },
{
    let headline = headline(state);
    let mut out = headline.to_owned();
    if !detail.is_empty() {
        out.append(": ");
        out.append(detail);
    }
    out
}

/// Returns the label of the sound cue switch for one enablement: the switch
/// always offers the opposite of what is in force.
pub fn cues_label(enabled: bool) -> (r: &'static str)
    ensures
        r@ == if enabled {
            "Mute sound cues"@
        } else {
            "Unmute sound cues"@
        },
{
    if enabled {
        "Mute sound cues"
    } else {
        "Unmute sound cues"
    }
}

} // verus!
