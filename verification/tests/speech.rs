//! What the speaker is handed, and what it decides.

use scufris::speech::{bounded, MAX_SPOKEN_BYTES};
use scufris::voice::{Cue, Voice};

#[test]
fn a_paragraph_is_trimmed_rather_than_dropped_and_never_carries_control_bytes() {
    assert_eq!(bounded("  it is raining  ".into()), "it is raining");
    // Newlines are what the helper reads as the end of the paragraph, so a
    // paragraph that carries one would be cut in half by the wire rather
    // than by this.
    assert_eq!(bounded("two\nlines".into()), "twolines");

    let long = bounded("é".repeat(MAX_SPOKEN_BYTES).to_string());
    assert!(long.len() <= MAX_SPOKEN_BYTES);
    assert!(
        long.chars().all(|character| character == 'é'),
        "a multi-byte character was cut in half"
    );
    assert!(!long.is_empty());
}

#[test]
fn a_cut_exposes_no_trailing_space_and_delete_is_a_control_byte() {
    let mut text = "a".repeat(MAX_SPOKEN_BYTES - 1);
    text.push(' ');
    text.push_str("tail that does not fit");
    let said = bounded(text);
    assert_eq!(said, "a".repeat(MAX_SPOKEN_BYTES - 1));
    assert_eq!(bounded("stop\u{7f}here".into()), "stophere");
    assert_eq!(bounded(" \t\n ".into()), "");
}

#[test]
fn a_companion_with_no_synthesiser_stays_silent_and_says_nothing_is_wrong() {
    let mut voice = Voice::new(false);
    assert_eq!(voice.say("it is raining".into()), Vec::new());
    assert_eq!(voice.hush(), Vec::new());
}

#[test]
fn one_utterance_at_a_time_and_the_last_word_is_the_current_one() {
    let mut voice = Voice::new(true);
    let first = voice.say("the first thing".into());
    assert_eq!(
        first,
        vec![Cue::Play {
            utterance: 1,
            text: "the first thing".into()
        }]
    );
    assert_eq!(voice.started(1), vec![Cue::Tell { speaking: true }]);
    let second = voice.say("the second thing".into());
    // A second paragraph cuts the first before it starts.
    assert_eq!(
        second,
        vec![
            Cue::Cut,
            Cue::Play {
                utterance: 2,
                text: "the second thing".into()
            }
        ]
    );
    // The listener already knows the companion is speaking.
    assert_eq!(voice.started(2), Vec::new());
    assert_eq!(
        voice.hush(),
        vec![Cue::Cut, Cue::Tell { speaking: false }]
    );
    // The cut utterances' ends say nothing over the silence that is real.
    assert_eq!(voice.ended(1), Vec::new());
    assert_eq!(voice.ended(2), Vec::new());
}

#[test]
fn a_muted_speaker_cuts_what_is_playing_and_takes_nothing_new() {
    let mut voice = Voice::new(true);
    assert!(!voice.muted());
    voice.say("the first thing".into());
    voice.started(1);
    let (muted, cues) = voice.mute(true);
    assert!(muted);
    assert_eq!(cues, vec![Cue::Cut, Cue::Tell { speaking: false }]);
    assert_eq!(voice.say("the muted thing".into()), Vec::new());
    let (muted, cues) = voice.mute(false);
    assert!(!muted);
    assert!(cues.is_empty());
    assert!(!voice.muted());
}

#[test]
fn an_utterance_that_finishes_on_its_own_reports_the_silence_once() {
    let mut voice = Voice::new(true);
    voice.say("hello".into());
    assert_eq!(voice.started(1), vec![Cue::Tell { speaking: true }]);
    assert_eq!(voice.ended(1), vec![Cue::Tell { speaking: false }]);
    assert_eq!(voice.ended(1), Vec::new());
    // A paragraph with nothing left to say is not an utterance.
    assert_eq!(voice.say(" \n ".into()), Vec::new());
    assert_eq!(voice.utterance(), 1);
}

/// Whatever happens to the speaker, the listener hears speaking and silence
/// take turns.
#[test]
fn the_listener_hears_speech_and_silence_take_turns() {
    let mut voice = Voice::new(true);
    let mut told: Vec<bool> = Vec::new();
    let mut hear = |cues: Vec<Cue>| {
        for cue in cues {
            if let Cue::Tell { speaking } = cue {
                told.push(speaking);
            }
        }
    };
    hear(voice.say("one".into()));
    hear(voice.started(1));
    hear(voice.say("two".into()));
    hear(voice.started(2));
    hear(voice.ended(1));
    hear(voice.ended(2));
    hear(voice.hush());
    hear(voice.say("three".into()));
    hear(voice.started(4));
    hear(voice.mute(true).1);
    hear(voice.mute(false).1);
    assert_eq!(told, [true, false, true, false]);
}

/// A paragraph whose synthesiser would not start leaves silence, and the
/// listener hears it; the paragraph it replaced was already cut.
#[test]
fn a_paragraph_that_would_not_start_leaves_silence() {
    let mut voice = Voice::new(true);
    voice.say("the first thing".into());
    assert_eq!(voice.started(1), vec![Cue::Tell { speaking: true }]);
    assert_eq!(voice.say("the second thing".into())[0], Cue::Cut);
    // A stale report changes nothing.
    assert_eq!(voice.unstarted(1), Vec::new());
    assert_eq!(voice.unstarted(2), vec![Cue::Tell { speaking: false }]);
    assert_eq!(voice.hush(), Vec::new());
}
