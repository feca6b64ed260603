//! The small window a panel borrows when it needs words.

use scufris::form::{
    clip, known_window, over, tidy, ActionValue, Ask, AskWords, FieldWords, Form, Position, Rect,
    CEILING, FIELDS, LINES, WIDTH, WORDS,
};

fn named(name: &str) -> FieldWords {
    FieldWords {
        object: true,
        name: Some(name.to_string()),
        label: None,
        lines: None,
        value: None,
        hint: None,
    }
}

fn text(value: &str) -> ActionValue {
    ActionValue::Text(value.to_string())
}

/// The action every ask here carries: `{"action": "add"}`.
fn add() -> Vec<(String, ActionValue)> {
    vec![("action".to_string(), text("add"))]
}

fn asking(fields: Vec<FieldWords>) -> AskWords {
    AskWords {
        object: true,
        action: Some(add()),
        title: Some("New task".to_string()),
        fields: Some(fields),
    }
}

fn ask_of(fields: Vec<FieldWords>) -> Ask {
    Ask::parse(&asking(fields)).expect("a well formed ask")
}

/// Where a box for a question of this height goes, on a monitor of this
/// scale: the box is measured in the physical pixels it is placed in.
fn box_over(panel: Rect, monitor: Rect, height: f64, scale: f64) -> Position {
    let width = (f64::from(WIDTH) * scale).round() as i32;
    let tall = (height * scale).round() as i32;
    over(panel, monitor, width, tall)
}

#[test]
fn an_ask_says_what_it_wants_and_what_to_do_with_it() {
    let mut field = named("text");
    field.label = Some("Task".to_string());
    let ask = ask_of(vec![field]);
    assert_eq!(ask.title, "New task");
    assert_eq!(ask.fields.len(), 1);
    assert_eq!(ask.fields[0].name, "text");
    assert_eq!(ask.fields[0].lines, 1, "a field is one line unless it says");
    assert_eq!(
        ask.action.iter().find(|(key, _)| key == "action").map(|(_, value)| value),
        Some(&text("add"))
    );
}

/// Every bound is here rather than on the page. A widget can come from
/// outside this build, so what it says about a window is checked before the
/// window is built to it.
#[test]
fn an_ask_that_is_not_one_is_refused_rather_than_drawn() {
    let not_an_object = AskWords {
        object: false,
        action: None,
        title: None,
        fields: None,
    };
    let no_action = AskWords {
        object: true,
        action: None,
        title: Some("x".into()),
        fields: Some(vec![]),
    };
    let no_title = AskWords {
        object: true,
        action: Some(vec![]),
        title: None,
        fields: Some(vec![named("a")]),
    };
    let mut nameless = named("a");
    nameless.name = None;
    nameless.label = Some("Task".into());
    for (asked, why) in [
        (not_an_object, "not an object"),
        (no_action, "no action"),
        (asking(vec![]), "no fields"),
        (no_title, "no title"),
        (asking(vec![nameless]), "a field with no name"),
    ] {
        assert!(Ask::parse(&asked).is_err(), "{why} was accepted");
    }
    let many: Vec<FieldWords> = (0..FIELDS + 1).map(|index| named(&index.to_string())).collect();
    assert!(Ask::parse(&asking(many)).is_err(), "too many fields");
}

#[test]
fn every_refusal_says_what_is_wrong() {
    let mut unnamed = named("");
    assert_eq!(
        Ask::parse(&asking(vec![unnamed.clone()])),
        Err("a field's name is what its answer is called".to_string())
    );
    unnamed.object = false;
    assert_eq!(
        Ask::parse(&asking(vec![named("ok"), unnamed])),
        Err("a field is an object".to_string())
    );
    assert_eq!(
        Ask::parse(&asking(vec![])),
        Err("an ask with no fields asks nothing".to_string())
    );
    let many: Vec<FieldWords> = (0..FIELDS + 1).map(|index| named(&index.to_string())).collect();
    assert_eq!(
        Ask::parse(&asking(many)),
        Err("an ask carries at most 4 fields".to_string())
    );
    let mut no_fields = asking(vec![]);
    no_fields.fields = None;
    assert_eq!(Ask::parse(&no_fields), Err("an ask carries fields".to_string()));
}

/// A widget that asked for a hundred lines would be a widget sizing the
/// companion's window, and one that asked for a title the width of the
/// monitor would be a widget writing on it.
#[test]
fn a_field_is_bounded_by_this_build_rather_than_by_the_widget() {
    let mut field = named("body");
    field.lines = Some(400);
    field.label = Some("x".repeat(400));
    let ask = ask_of(vec![field]);
    assert_eq!(ask.fields[0].lines, LINES);
    assert_eq!(ask.fields[0].label.chars().count(), WORDS);
    assert!(ask.height() <= CEILING);
}

#[test]
fn the_box_is_as_tall_as_the_form_the_page_lays_out() {
    let one = ask_of(vec![named("text")]);
    assert_eq!(f64::from(one.height()), 131.0);
    let mut body = named("body");
    body.lines = Some(5);
    let two = ask_of(vec![named("heading"), body]);
    assert_eq!(f64::from(two.height()), 273.0);
}

/// The page is handed labels and hands back words. What those words mean
/// was decided when the panel asked, so a page that answered with a key
/// nobody asked for cannot name an argument the backend reads.
#[test]
fn only_the_fields_that_were_asked_for_reach_the_backend() {
    let ask = ask_of(vec![named("text")]);
    let answers = vec![
        ("den".to_string(), "/etc".to_string()),
        ("text".to_string(), "  Call the dentist ".to_string()),
    ];
    assert_eq!(
        ask.fill(&answers),
        vec![
            ("action".to_string(), text("add")),
            ("text".to_string(), text("Call the dentist")),
        ]
    );
}

/// A one-line field is one line whatever is pasted into it. A block keeps
/// its shape, because that shape is the note.
#[test]
fn a_one_line_field_answers_with_one_line() {
    assert_eq!(tidy("  two\nlines  ", 1), "two lines");
    assert_eq!(tidy("  two\nlines  ", 4), "two\nlines");
}

/// A field the person left empty is still sent, as nothing.
#[test]
fn a_blank_answer_is_still_an_answer() {
    let ask = ask_of(vec![named("heading"), named("body")]);
    assert_eq!(
        ask.fill(&vec![("body".to_string(), "note".to_string())]),
        vec![
            ("action".to_string(), text("add")),
            ("heading".to_string(), text("")),
            ("body".to_string(), text("note")),
        ]
    );
}

#[test]
fn the_box_stands_over_the_panel_that_asked() {
    let screen = Rect {
        x: 0,
        y: 0,
        width: 1920,
        height: 1080,
    };
    let panel = Rect {
        x: 1500,
        y: 200,
        width: 340,
        height: 520,
    };
    assert_eq!(over(panel, screen, 420, 131), Position { x: 1460, y: 394 });
}

#[test]
fn the_box_is_sized_from_the_question_and_never_from_the_window() {
    let screen = Rect {
        x: 0,
        y: 0,
        width: 1920,
        height: 1080,
    };
    let panel = Rect {
        x: 1556,
        y: 24,
        width: 340,
        height: 520,
    };
    let ask = ask_of(vec![named("text")]);
    assert_eq!(f64::from(ask.height()), 131.0);
    assert_eq!(
        box_over(panel, screen, f64::from(ask.height()), 1.0),
        Position { x: 1500, y: 218 }
    );
    // What asking the window gave instead: the panel's own centre point.
    assert_eq!(over(panel, screen, 0, 0), Position { x: 1726, y: 284 });
}

#[test]
fn a_box_on_a_doubled_display_is_measured_in_the_pixels_it_is_placed_in() {
    let screen = Rect {
        x: 0,
        y: 0,
        width: 2560,
        height: 1440,
    };
    let panel = Rect {
        x: 400,
        y: 200,
        width: 680,
        height: 1040,
    };
    assert_eq!(
        box_over(panel, screen, 131.0, 2.0),
        Position { x: 320, y: 589 }
    );
}

#[test]
fn a_panel_near_an_edge_pushes_the_box_inward_rather_than_off() {
    let screen = Rect {
        x: 0,
        y: 0,
        width: 1920,
        height: 1080,
    };
    let corner = Rect {
        x: 1860,
        y: 1040,
        width: 40,
        height: 40,
    };
    assert_eq!(over(corner, screen, 420, 131), Position { x: 1500, y: 949 });
    // A second monitor to the right: the box never lands on the first one.
    let right = Rect {
        x: 1920,
        y: -120,
        width: 2560,
        height: 1440,
    };
    let edge = Rect {
        x: 1920,
        y: -120,
        width: 340,
        height: 520,
    };
    assert_eq!(over(edge, right, 420, 131), Position { x: 1920, y: 74 });
}

#[test]
fn a_monitor_smaller_than_the_box_never_places_it_off_screen() {
    let small = Rect {
        x: 40,
        y: 60,
        width: 320,
        height: 100,
    };
    assert_eq!(over(small, small, 420, 131), Position { x: 40, y: 60 });
}

#[test]
fn a_centre_that_rounds_toward_zero_is_still_centred() {
    let screen = Rect {
        x: 0,
        y: 0,
        width: 1000,
        height: 1000,
    };
    let panel = Rect {
        x: 500,
        y: 500,
        width: 100,
        height: 100,
    };
    // (100 - 181) / 2 is -40 in integer division, not -41.
    assert_eq!(over(panel, screen, 181, 181), Position { x: 460, y: 460 });
}

#[test]
fn printed_words_are_clipped_to_the_box() {
    assert_eq!(clip("short"), "short");
    assert_eq!(clip(&"é".repeat(100)).chars().count(), WORDS);
    assert_eq!(known_window(0), None);
    assert_eq!(known_window(0x400010), Some(0x400010));
}

#[test]
fn the_box_holds_one_question_and_refuses_a_second_while_it_is_up() {
    let mut form = Form::new();
    assert_eq!(form.asked(), None);
    assert_eq!(
        form.open("den".into(), ask_of(vec![named("text")]), true, false),
        Err("the textbox has a take in it".to_string())
    );
    assert_eq!(
        form.open("den".into(), ask_of(vec![named("text")]), false, false),
        Ok(())
    );
    assert_eq!(form.asked(), Some(ask_of(vec![named("text")])));
    assert_eq!(
        form.open("macros".into(), ask_of(vec![named("weight")]), false, true),
        Err("the box is busy".to_string())
    );
    // Another surface going away leaves the question where it is.
    assert!(!form.forget("macros"));
    let answered = form.submit(&vec![("text".to_string(), " milk ".to_string())]);
    assert_eq!(
        answered,
        Some((
            "den".to_string(),
            vec![
                ("action".to_string(), text("add")),
                ("text".to_string(), text("milk")),
            ]
        ))
    );
    assert_eq!(form.submit(&vec![]), None);
    form.open("den".into(), ask_of(vec![named("text")]), false, false)
        .expect("the box is free again");
    assert!(form.forget("den"));
    assert_eq!(form.asked(), None);
}

/// An answer takes the place of what the action already held under the
/// field's name, and every other entry is carried through as it came.
#[test]
fn an_answer_replaces_what_the_action_held_under_its_name() {
    let mut words = asking(vec![named("text")]);
    words.action = Some(vec![
        ("action".to_string(), text("add")),
        ("text".to_string(), text("placeholder")),
        ("due".to_string(), ActionValue::Other("3".to_string())),
    ]);
    let ask = Ask::parse(&words).expect("a well formed ask");
    assert_eq!(
        ask.fill(&vec![("text".to_string(), " milk ".to_string())]),
        vec![
            ("action".to_string(), text("add")),
            ("text".to_string(), text("milk")),
            ("due".to_string(), ActionValue::Other("3".to_string())),
        ]
    );
}
