//! What holds of the companion whatever happens to it.
use vstd::prelude::*;

use crate::state::{
    actions_view, applied, command_id, posture_of, transition, ActionView, Assistant,
    CompanionView, Delivery, EventView, PhaseView,
};
use crate::config::{affords, charged, counted, recent, MAX_RESTARTS};
use crate::daemon::{
    coherent, correlation, displaced, entries, find_waiting, frontends, on_command, on_debug, on_event, on_register,
    on_unregister, remaining, role_of, send_to, to_frontends, with_state, AgentEvent, BodyView,
    Condition, EffectView, EntryView, RequestView, Role, ServiceView, TranscriptEntry, AGENT_REFUSED, BOOT, DEBUG_HELD, DETACHED,
    TRANSCRIPT_ENTRIES, WRONG_ROLE,
};
use crate::form::{
    AskView,
    ask_of, collapsed, field_of, laid, slot_of, fields_of, half, line_count, placed, tidied, AskWords, FieldWords,
    FIELDS, LINES, WORDS,
};
use crate::speech::{fitting, lemma_fitting, lemma_without_controls, spoken, trimmed_end, without_controls, MAX_SPOKEN_BYTES};
use crate::voice::{ending, hushing, saying, starting, telling, unstarting, CueView, VoiceView};
use crate::tray::{color_of, headline_of, icon_byte, icon_channel, spread};
use crate::stt::{multipart, utf8};
use crate::text::{
    byte_len, decimal, digit, is_control, is_white, lemma_byte_len_one, lemma_byte_len_prefix,
    lemma_lead_bounds, lemma_trail_bounds, lemma_trimmed, lead_from, trail_to, trimmed,
};

verus! {

/// Nothing is sent that the person has not read and accepted in the textbox:
/// a submission only ever answers Enter on a transcript in the textbox, it is
/// always the second of two actions, and the first writes the same words under
/// the same identifier to durable storage.
pub proof fn law_a_submission_is_persisted_first_and_only_answers_enter(c: CompanionView, e: EventView)
    ensures
        ({
            let (next, acts) = applied(c, e);
            forall|i: int|
                0 <= i < acts.len() && #[trigger] acts[i] is Submit ==> {
                    &&& e is Enter
                    &&& (c.phase is Editing || c.phase is Retained)
                    &&& next.phase == (PhaseView::Sent {
                        transcript: acts[i]->Submit_text,
                        id: acts[i]->Submit_id,
                        prior: next.phase->Sent_prior,
                    })
                    &&& acts.len() == 2
                    &&& i == 1
                    &&& acts[0] == (ActionView::PersistPending {
                        id: acts[1]->Submit_id,
                        text: acts[1]->Submit_text,
                    })
                }
        }),
{
}

/// An edited transcript is sent trimmed, and never empty.
pub proof fn law_what_is_typed_is_sent_trimmed_and_never_empty(c: CompanionView, text: Option<Seq<char>>)
    requires
        c.phase is Editing || (c.phase is Retained && c.phase->Retained_delivery == Delivery::Refused),
    ensures
        ({
            let (next, acts) = applied(c, EventView::Enter { text });
            let words = trimmed(
                match text {
                    Some(t) => t,
                    None => if c.phase is Editing {
                        c.phase->Editing_transcript
                    } else {
                        c.phase->Retained_transcript
                    },
                },
            );
            if words.len() == 0 {
                next == c && acts.len() == 0
            } else {
                acts.len() == 2 && acts[1] is Submit && acts[1]->Submit_text == words
            }
        }),
{
}

/// A transcript that may already be in the conversation is never sent again
/// by anything but a second Enter after the warning: not by a timeout, a
/// reconnection, an answer, or a first Enter.
pub proof fn law_an_uncertain_transcript_is_never_resent_unasked(c: CompanionView, e: EventView)
    requires
        c.phase is Retained,
        c.phase->Retained_delivery == Delivery::Uncertain,
        !c.phase->Retained_warned,
    ensures
        forall|i: int|
            0 <= i < applied(c, e).1.len() ==> !(#[trigger] applied(c, e).1[i] is Submit),
        e is Enter ==> applied(c, e).0.phase == (PhaseView::Retained {
            transcript: c.phase->Retained_transcript,
            id: c.phase->Retained_id,
            reason: crate::state::FORCE_WARNING@,
            delivery: Delivery::Uncertain,
            warned: true,
        }),
{
}

/// An answer that names another submission never settles, refuses, or
/// freezes the transcript the pill is holding.
pub proof fn law_an_answer_only_settles_the_submission_it_names(c: CompanionView, other: Seq<char>, reason: Seq<char>)
    requires
        match c.phase {
            PhaseView::Sent { id, .. } | PhaseView::Retained { id, .. } => id != other,
            _ => true,
        },
    ensures
        applied(c, EventView::Acknowledged(other)) == (c, Seq::<ActionView>::empty()),
        applied(c, EventView::SubmissionFailed { id: other, reason }) == (c, Seq::<ActionView>::empty()),
        applied(c, EventView::SubmissionUncertain { id: other, reason }) == (c, Seq::<ActionView>::empty()),
{
}

/// The activation key never throws away a transcript that has not been
/// acknowledged.
pub proof fn law_activation_never_discards_words(c: CompanionView)
    requires
        c.phase is Editing || c.phase is Sent || c.phase is Retained,
    ensures
        applied(c, EventView::Activate).0.phase == c.phase,
        applied(c, EventView::Activate).1.len() == 0,
{
}

/// Stopping belongs to the assistant: it never moves the phase, and it asks
/// the service for something only while a run is in progress.
pub proof fn law_stop_leaves_the_phase_alone(c: CompanionView)
    ensures
        applied(c, EventView::Stop).0.phase == c.phase,
        applied(c, EventView::Stop).0.dismissed == c.dismissed,
        applied(c, EventView::Stop).1.len() == if c.assistant == Assistant::Working {
            1int
        } else {
            0int
        },
{
}

/// Revealing and dismissing never touch what the person is in the middle of,
/// and never ask the host to do anything.
pub proof fn law_reveal_and_dismiss_leave_the_phase_alone(c: CompanionView)
    ensures
        applied(c, EventView::Reveal).0.phase == c.phase,
        applied(c, EventView::Reveal).1.len() == 0,
        applied(c, EventView::Reveal).0.blind is None,
        !applied(c, EventView::Reveal).0.dismissed,
        applied(c, EventView::Dismiss).0.phase == c.phase,
        applied(c, EventView::Dismiss).1.len() == 0,
{
}

/// Escape, and cancel, always close the microphone and never leave a
/// transcription running.
pub proof fn law_escape_closes_the_microphone(c: CompanionView)
    ensures
        !(applied(c, EventView::Escape).0.phase is Listening),
        !(applied(c, EventView::Escape).0.phase is Transcribing),
        !(applied(c, EventView::Cancel).0.phase is Listening),
        !(applied(c, EventView::Cancel).0.phase is Transcribing),
        c.phase is Listening ==> applied(c, EventView::Escape).1 == seq![ActionView::DiscardRecording],
        c.phase is Transcribing ==> applied(c, EventView::Escape).1 == seq![ActionView::CancelTranscription],
{
}

/// Escape ends whatever the person is in the middle of: afterwards nothing
/// is listening, transcribing, being edited, held, or failed; the pill rests,
/// or carries on waiting for a submission already sent; and the pill is put
/// away. A failure in particular is closed by Escape, or by a cancel, with
/// nothing for the host to do: it is the only key a failure has.
pub proof fn law_escape_ends_the_interaction(c: CompanionView)
    ensures
        applied(c, EventView::Escape).0.phase is Resting || applied(c, EventView::Escape).0.phase is Sent,
        applied(c, EventView::Cancel).0.phase is Resting || applied(c, EventView::Cancel).0.phase is Sent,
        posture_of(applied(c, EventView::Escape).0) == crate::state::Posture::Off,
        c.phase is Failed ==> {
            &&& applied(c, EventView::Escape).0.phase is Resting
            &&& applied(c, EventView::Escape).1.len() == 0
            &&& applied(c, EventView::Cancel).0.phase is Resting
            &&& applied(c, EventView::Cancel).1.len() == 0
            &&& applied(c, EventView::Cancel).0.dismissed == c.dismissed
        },
{
}

/// Only the person's own Escape puts the pill away; a cancel leaves it
/// standing over the workspace it was cancelled in.
pub proof fn law_cancel_never_dismisses(c: CompanionView)
    ensures
        applied(c, EventView::Cancel).0.dismissed == c.dismissed,
        applied(c, EventView::Escape).0.dismissed,
{
}

/// Nothing the assistant or the service connection does moves the pill: where
/// its windows belong depends on the phase, the person's dismissal, and the
/// window alone.
pub proof fn law_the_assistant_never_moves_the_pill(
    c: CompanionView,
    assistant: Assistant,
    detail: Seq<char>,
    connected: bool,
    speaking: bool,
)
    ensures
        posture_of(
            CompanionView {
                assistant,
                assistant_detail: detail,
                connected,
                speaking,
                notices: Seq::empty(),
                ..c
            },
        ) == posture_of(c),
{
}

proof fn lemma_decimal_len(n: nat)
    ensures
        decimal(n).len() >= 1,
        n >= 10 ==> decimal(n).len() >= 2,
    decreases n,
{
    if n >= 10 {
        lemma_decimal_len(n / 10);
    }
}

/// Different numbers are written differently.
pub proof fn lemma_decimal_injective(n: nat, m: nat)
    requires
        decimal(n) == decimal(m),
    ensures
        n == m,
    decreases n,
{
    lemma_decimal_len(n);
    lemma_decimal_len(m);
    if n < 10 && m < 10 {
        assert(decimal(n)[0] == digit(n));
        assert(decimal(m)[0] == digit(m));
    } else if n >= 10 && m >= 10 {
        let a = decimal(n / 10);
        let b = decimal(m / 10);
        assert(decimal(n) == a.push(digit(n % 10)));
        assert(decimal(m) == b.push(digit(m % 10)));
        assert(a =~= decimal(n).drop_last());
        assert(b =~= decimal(m).drop_last());
        assert(digit(n % 10) == decimal(n).last());
        lemma_decimal_injective(n / 10, m / 10);
    }
}

/// No two commands of one companion carry the same identifier.
pub proof fn law_command_identifiers_are_distinct(prefix: Seq<char>, n: nat, m: nat)
    requires
        n != m,
    ensures
        command_id(prefix, n) != command_id(prefix, m),
{
    if command_id(prefix, n) == command_id(prefix, m) {
        reveal_strlit("-");
        let k: int = prefix.len() as int + 1;
        assert(decimal(n) =~= command_id(prefix, n).skip(k));
        assert(decimal(m) =~= command_id(prefix, m).skip(k));
        lemma_decimal_injective(n, m);
    }
}

/// The command counter only grows, and every identifier an event mints is the
/// next one, so an identifier is never handed out twice.
pub proof fn law_identifiers_are_minted_fresh(c: CompanionView, e: EventView)
    ensures
        applied(c, e).0.prefix == c.prefix,
        applied(c, e).0.commands == c.commands || applied(c, e).0.commands == c.commands + 1,
        applied(c, e).0.commands == c.commands + 1 ==> {
            ||| applied(c, e).1 == seq![ActionView::Abort { id: command_id(c.prefix, c.commands + 1) }]
            ||| applied(c, e).0.phase->Editing_id == command_id(c.prefix, c.commands + 1)
        },
{
}

/// The attempts a fresh restart budget holds after being asked at each of
/// `times` in turn.
pub open spec fn replay(times: Seq<u64>) -> Seq<u64>
    decreases times.len(),
{
    if times.len() == 0 {
        Seq::empty()
    } else {
        charged(replay(times.drop_last()), times.last())
    }
}

/// Whether a fresh restart budget asked at each of `times` in turn granted
/// the ask at position `i`.
pub open spec fn granted(times: Seq<u64>, i: int) -> bool {
    affords(replay(times.take(i)), times[i])
}

/// The asks among the first `k` of a run that were granted and still lie
/// inside the window at `now`, oldest first.
pub open spec fn granted_within(times: Seq<u64>, k: int, now: u64) -> Seq<u64>
    decreases k,
{
    if k <= 0 {
        Seq::empty()
    } else {
        let rest = granted_within(times, k - 1, now);
        if granted(times, k - 1) && recent(now, times[k - 1]) {
            rest.push(times[k - 1])
        } else {
            rest
        }
    }
}

/// Times that never go backwards.
pub open spec fn in_order(times: Seq<u64>) -> bool {
    forall|i: int, j: int| 0 <= i <= j < times.len() ==> times[i] <= times[j]
}

proof fn lemma_counted_push(s: Seq<u64>, x: u64, now: u64)
    ensures
        counted(s.push(x), now) == if recent(now, x) {
            counted(s, now).push(x)
        } else {
            counted(s, now)
        },
{
    assert(s.push(x).drop_last() =~= s);
    reveal_with_fuel(Seq::filter, 2);
}

proof fn lemma_counted_len(s: Seq<u64>, now: u64)
    ensures
        counted(s, now).len() <= s.len(),
    decreases s.len(),
{
    if s.len() > 0 {
        lemma_counted_len(s.drop_last(), now);
        assert(s.drop_last().push(s.last()) =~= s);
        lemma_counted_push(s.drop_last(), s.last(), now);
    }
}

proof fn lemma_replay_bounded(times: Seq<u64>)
    ensures
        replay(times).len() <= MAX_RESTARTS,
    decreases times.len(),
{
    if times.len() > 0 {
        lemma_replay_bounded(times.drop_last());
        lemma_counted_len(replay(times.drop_last()), times.last());
    }
}

/// Narrowing the window from `p` to a later `q` keeps exactly the asks that
/// are still inside it.
proof fn lemma_narrowed(times: Seq<u64>, j: int, p: u64, q: u64)
    requires
        0 <= j <= times.len(),
        p <= q,
        forall|i: int| 0 <= i < j ==> times[i] <= p,
    ensures
        counted(granted_within(times, j, p), q) == granted_within(times, j, q),
    decreases j,
{
    if j > 0 {
        lemma_narrowed(times, j - 1, p, q);
        let t = times[j - 1];
        lemma_counted_push(granted_within(times, j - 1, p), t, q);
        assert(recent(q, t) ==> recent(p, t));
    }
}

/// What a fresh budget holds after a run is the granted asks still inside the
/// window of the latest one.
proof fn lemma_replay_is_granted_within(times: Seq<u64>, k: int)
    requires
        in_order(times),
        0 < k <= times.len(),
    ensures
        replay(times.take(k)) == granted_within(times, k, times[k - 1]),
    decreases k,
{
    let t = times[k - 1];
    assert(times.take(k).drop_last() =~= times.take(k - 1));
    assert(times.take(k).last() == t);
    if k == 1 {
        assert(times.take(0) =~= Seq::<u64>::empty());
        assert(counted(Seq::<u64>::empty(), t) =~= Seq::<u64>::empty());
        assert(granted_within(times, 0, t) =~= Seq::<u64>::empty());
    } else {
        lemma_replay_is_granted_within(times, k - 1);
        let p = times[k - 2];
        lemma_narrowed(times, k - 1, p, t);
    }
}

/// A restart budget grants at most [`MAX_RESTARTS`] restarts inside any one
/// window: asked at times that never go backwards, the asks it granted that
/// lie within the window of the latest ask number at most that many.
pub proof fn law_restarts_are_bounded_inside_the_window(times: Seq<u64>)
    requires
        in_order(times),
        times.len() > 0,
    ensures
        granted_within(times, times.len() as int, times.last()).len() <= MAX_RESTARTS,
{
    lemma_replay_is_granted_within(times, times.len() as int);
    assert(times.take(times.len() as int) =~= times);
    lemma_replay_bounded(times);
}

proof fn lemma_nothing_counted(s: Seq<u64>, now: u64)
    requires
        forall|i: int| 0 <= i < s.len() ==> !recent(now, #[trigger] s[i]),
    ensures
        counted(s, now) == Seq::<u64>::empty(),
    decreases s.len(),
{
    if s.len() > 0 {
        assert(s.drop_last().push(s.last()) =~= s);
        lemma_nothing_counted(s.drop_last(), now);
        lemma_counted_push(s.drop_last(), s.last(), now);
    }
}

/// A restart budget recovers after its window: when every attempt it holds
/// lies outside the window at `now`, the ask at `now` is granted and is then
/// the only attempt it holds.
pub proof fn law_a_quiet_window_restores_the_budget(attempts: Seq<u64>, now: u64)
    requires
        forall|i: int| 0 <= i < attempts.len() ==> !recent(now, #[trigger] attempts[i]),
    ensures
        affords(attempts, now),
        charged(attempts, now) == seq![now],
{
    lemma_nothing_counted(attempts, now);
    assert(Seq::<u64>::empty().push(now) =~= seq![now]);
}

/// What the speaker is handed never carries a control character, fits in
/// [`MAX_SPOKEN_BYTES`], neither starts nor ends on white space, and is the
/// paragraph's own words from their start, cut on a character boundary. A
/// long paragraph is shortened rather than dropped: nothing is handed over
/// only when the paragraph held nothing to say.
pub proof fn law_a_paragraph_is_trimmed_rather_than_dropped(s: Seq<char>)
    ensures
        ({
            let r = spoken(s);
            let t = trimmed(without_controls(s));
            &&& forall|i: int| 0 <= i < r.len() ==> !is_control(#[trigger] r[i])
            &&& byte_len(r) <= MAX_SPOKEN_BYTES
            &&& r.len() <= t.len()
            &&& r == t.subrange(0, r.len() as int)
            &&& (r.len() == 0 <==> t.len() == 0)
            &&& r.len() > 0 ==> !is_white(r[0]) && !is_white(r[r.len() - 1])
        }),
{
    let w = without_controls(s);
    let t = trimmed(w);
    lemma_without_controls(s);
    lemma_trimmed(w);
    lemma_lead_bounds(w, 0);
    let a = lead_from(w, 0);
    lemma_trail_bounds(w, a, w.len() as int);
    assert forall|i: int| 0 <= i < t.len() implies !is_control(#[trigger] t[i]) by {
        assert(t[i] == w[a + i]);
    }
    if byte_len(t) > MAX_SPOKEN_BYTES {
        if t.len() == 0 {
            assert(vstd::utf8::encode_utf8(t).len() == 0);
        }
        assert(t.subrange(0, 1) =~= seq![t[0]]);
        lemma_byte_len_one(t[0]);
        lemma_fitting(t, t.len() as int, MAX_SPOKEN_BYTES as nat);
        let k = fitting(t, t.len() as int, MAX_SPOKEN_BYTES as nat);
        let p = t.subrange(0, k);
        lemma_trail_bounds(p, 0, k);
        let j = trail_to(p, 0, k);
        if j == 0 {
            assert(is_white(p[0]));
        }
        let r = spoken(s);
        assert(r =~= p.subrange(0, j));
        assert(r =~= t.subrange(0, j));
        lemma_byte_len_prefix(p, j);
    }
}

/// The state names the tray draws a colour of their own for.
pub open spec fn tray_state_name(s: Seq<char>) -> bool {
    ||| s == "idle"@
    ||| s == "listening"@
    ||| s == "transcribing"@
    ||| s == "working"@
    ||| s == "speaking"@
    ||| s == "attention"@
    ||| s == "error"@
    ||| s == "disconnected"@
}

proof fn reveal_tray_state_names() {
    reveal_strlit("idle");
    reveal_strlit("listening");
    reveal_strlit("transcribing");
    reveal_strlit("working");
    reveal_strlit("speaking");
    reveal_strlit("attention");
    reveal_strlit("error");
    reveal_strlit("disconnected");
}

/// Every tray state has its own headline, and the error state says it is
/// one: no named state but idle reads as idle, and no two named states read
/// alike.
pub proof fn law_every_tray_state_has_its_own_headline(a: Seq<char>, b: Seq<char>)
    ensures
        headline_of("error"@) == "Scufris reported an error"@,
        tray_state_name(a) && tray_state_name(b) && a != b ==> headline_of(a) != headline_of(b),
        tray_state_name(a) && headline_of(a) == "Scufris is idle"@ ==> a == "idle"@,
{
    reveal_strlit("Scufris is recording");
    reveal_strlit("Scufris is transcribing");
    reveal_strlit("Scufris is working");
    reveal_strlit("Scufris is speaking");
    reveal_strlit("Scufris needs you");
    reveal_strlit("Scufris reported an error");
    reveal_strlit("Scufris backend unavailable");
    reveal_strlit("Scufris is idle");
    reveal_strlit("idle");
    reveal_strlit("listening");
    reveal_strlit("transcribing");
    reveal_strlit("working");
    reveal_strlit("speaking");
    reveal_strlit("attention");
    reveal_strlit("error");
    reveal_strlit("disconnected");
    assert("error"@.len() == 5);
    assert("error"@ != "listening"@ && "error"@ != "transcribing"@ && "error"@ != "working"@
        && "error"@ != "speaking"@ && "error"@ != "attention"@);
    if tray_state_name(a) && tray_state_name(b) && a != b {
        assert(headline_of(a).len() != headline_of(b).len());
    }
    if tray_state_name(a) && a != "idle"@ {
        assert(headline_of(a).len() != "Scufris is idle"@.len());
    }
}

/// The recording goes to the transcription endpoint under the form field it
/// reads the audio from: the body holds a part named `file`, as
/// `recording.wav`, typed `audio/wav`, whose contents are the recording's own
/// bytes, unchanged, followed by the end of the part.
pub proof fn law_the_recording_travels_as_the_file_field(wav: Seq<u8>)
    ensures
        ({
            let part = utf8("Content-Disposition: form-data; name=\"file\"; filename=\"recording.wav\"\r\n"@)
                + utf8("Content-Type: audio/wav\r\n\r\n"@) + wav + utf8("\r\n"@);
            exists|start: int|
                0 <= start && start + part.len() <= multipart(wav).len() && #[trigger] multipart(wav).subrange(
                    start,
                    start + part.len(),
                ) == part
        }),
{
    let part = utf8("Content-Disposition: form-data; name=\"file\"; filename=\"recording.wav\"\r\n"@)
        + utf8("Content-Type: audio/wav\r\n\r\n"@) + wav + utf8("\r\n"@);
    let head = utf8("--"@) + utf8(crate::stt::BOUNDARY@) + utf8("\r\n"@)
        + utf8("Content-Disposition: form-data; name=\"response_format\"\r\n\r\n"@) + utf8("json"@)
        + utf8("\r\n"@) + utf8("--"@) + utf8(crate::stt::BOUNDARY@) + utf8("\r\n"@)
        + utf8("Content-Disposition: form-data; name=\"temperature\"\r\n\r\n"@) + utf8("0.0"@)
        + utf8("\r\n"@) + utf8("--"@) + utf8(crate::stt::BOUNDARY@) + utf8("\r\n"@);
    let tail = utf8("--"@) + utf8(crate::stt::BOUNDARY@) + utf8("--\r\n"@);
    assert(multipart(wav) =~= head + part + tail);
    let start = head.len() as int;
    assert(multipart(wav).subrange(start, start + part.len()) =~= part);
}

/// Every tray state has its own colour.
pub proof fn law_every_tray_state_has_its_own_colour(a: Seq<char>, b: Seq<char>)
    requires
        tray_state_name(a),
        tray_state_name(b),
        a != b,
    ensures
        color_of(a) != color_of(b),
{
    reveal_tray_state_names();
    assert(color_of(a)[0] != color_of(b)[0] || color_of(a)[1] != color_of(b)[1] || color_of(a)[2]
        != color_of(b)[2]);
}

/// Red is reserved for error: no other state, named or not, is drawn in it.
pub proof fn law_red_is_reserved_for_error(state: Seq<char>)
    ensures
        color_of(state) == color_of("error"@) <==> state == "error"@,
{
    reveal_tray_state_names();
    if state != "error"@ {
        assert(color_of(state)[0] != 0xF4u8 || color_of(state)[1] != 0x38u8);
    }
}

/// Recording always draws the red privacy ring, and no other state draws
/// anything where the ring goes.
pub proof fn law_recording_always_draws_the_privacy_indicator(state: Seq<char>, x: int, y: int, c: int)
    requires
        576 < spread(x, y) <= 900,
        0 <= c < 4,
    ensures
        state == "listening"@ ==> icon_channel(state, x, y, c) == seq![0xF4u8, 0x38u8, 0x41u8, 0xFFu8][c],
        state != "listening"@ ==> icon_channel(state, x, y, c) == 0,
{
}

/// The middle of the icon is opaque and carries the state's colour, so states
/// with different colours draw different icons.
pub proof fn law_the_icon_carries_the_state_colour(state: Seq<char>, c: int)
    requires
        0 <= c < 3,
    ensures
        icon_channel(state, 15, 15, c) == color_of(state)[c],
        icon_channel(state, 15, 15, 3) == 0xFFu8,
{
    assert((2 * 15 - 31) * (2 * 15 - 31) == 1) by (nonlinear_arith);
}

/// In the bitmap itself: the pixel at column 16 of row 2, which lies on the
/// ring, is opaque red while recording and transparent in any other state;
/// and two states of different colours never draw the same bitmap, since the
/// middle pixel, byte `(15 * 32 + 15) * 4` onward, carries the colour.
pub proof fn law_the_bitmap_shows_the_ring_and_the_colour(state: Seq<char>, other: Seq<char>, c: int)
    requires
        0 <= c < 4,
    ensures
        state == "listening"@ ==> icon_byte(state, (2 * 32 + 16) * 4 + c) == seq![0xF4u8, 0x38u8, 0x41u8, 0xFFu8][c],
        state != "listening"@ ==> icon_byte(state, (2 * 32 + 16) * 4 + c) == 0,
        color_of(state) != color_of(other) ==> exists|i: int|
            0 <= i < 4096 && #[trigger] icon_byte(state, i) != icon_byte(other, i),
{
    let ring: int = (2 * 32 + 16) * 4 + c;
    assert(ring / 4 == 80 && 80int % 32 == 16 && 80int / 32 == 2);
    assert(spread(16, 2) == 730) by (nonlinear_arith);
    law_recording_always_draws_the_privacy_indicator(state, 16, 2, c);
    if color_of(state) != color_of(other) {
        let base: int = 1980;
        assert(base / 4 == 495 && 495int % 32 == 15 && 495int / 32 == 15);
        assert((base + 1) / 4 == 495 && (base + 1) % 4 == 1);
        assert((base + 2) / 4 == 495 && (base + 2) % 4 == 2);
        assert(base % 4 == 0);
        law_the_icon_carries_the_state_colour(state, 0);
        law_the_icon_carries_the_state_colour(state, 1);
        law_the_icon_carries_the_state_colour(state, 2);
        law_the_icon_carries_the_state_colour(other, 0);
        law_the_icon_carries_the_state_colour(other, 1);
        law_the_icon_carries_the_state_colour(other, 2);
        assert(color_of(state).len() == 3 && color_of(other).len() == 3);
        if color_of(state)[0] != color_of(other)[0] {
            assert(icon_byte(state, base) != icon_byte(other, base));
        } else if color_of(state)[1] != color_of(other)[1] {
            assert(icon_byte(state, base + 1) != icon_byte(other, base + 1));
        } else {
            assert(color_of(state) =~= color_of(other) || color_of(state)[2] != color_of(other)[2]);
            assert(icon_byte(state, base + 2) != icon_byte(other, base + 2));
        }
    }
}

/// No two commands of the service carry the same correlation identifier.
pub proof fn law_correlations_are_distinct(n: u64, m: u64)
    requires
        n != m,
    ensures
        correlation(n) != correlation(m),
{
    if correlation(n) == correlation(m) {
        reveal_strlit("c-");
        assert(decimal(n as nat) =~= correlation(n).skip(2));
        assert(decimal(m as nat) =~= correlation(m).skip(2));
        lemma_decimal_injective(n as nat, m as nat);
    }
}

proof fn lemma_found(s: ServiceView, id: Seq<char>, from: int, i: int)
    requires
        0 <= from <= i < s.pending.len(),
        correlation(s.pending[i].number) == id,
        forall|j: int| from <= j < i ==> correlation(#[trigger] s.pending[j].number) != id,
    ensures
        find_waiting(s.pending, id, from) == Some(i),
    decreases i - from,
{
    if from < i {
        lemma_found(s, id, from + 1, i);
    }
}

/// A held lease owns the state: whatever the agent reports while a terminal
/// holds the session, the conversation stays detached and the lease stays
/// where it is.
pub proof fn law_a_held_lease_owns_the_state(s: ServiceView, event: AgentEvent)
    requires
        coherent(s),
        s.lease is Some,
    ensures
        on_event(s, event).0.state == Condition::Detached,
        on_event(s, event).0.lease == s.lease,
{
}

/// While a terminal holds the session, a command is refused, to the client
/// that sent it alone, and nothing reaches the agent.
pub proof fn law_a_held_session_refuses_commands(s: ServiceView, client: u64, id: Seq<char>, request: RequestView)
    requires
        s.lease is Some,
    ensures
        on_command(s, client, id, request).0 == s,
        on_command(s, client, id, request).1 == send_to(
            s.clients,
            client,
            BodyView::Refused { id, code: DETACHED@, detail: "a terminal has the session"@ },
        ),
{
}

/// The client that asked is the client that is answered: the agent's answer
/// under one correlation reaches the client waiting on it, under the
/// identifier that client used, and no one else; only that wait ends.
pub proof fn law_the_client_that_asked_is_the_client_that_is_answered(
    s: ServiceView,
    i: int,
    success: bool,
    error: Option<String>,
    answer: String,
    session_file: Option<String>,
    streaming: bool,
)
    requires
        coherent(s),
        0 <= i < s.pending.len(),
        answer@ == correlation(s.pending[i].number),
    ensures
        ({
            let event = AgentEvent::Response { id: Some(answer), success, error, session_file, streaming };
            let w = s.pending[i];
            &&& on_event(s, event).0 == (ServiceView { pending: s.pending.remove(i), ..s })
            &&& on_event(s, event).1 == send_to(
                s.clients,
                w.client,
                if success {
                    BodyView::Done { id: w.id }
                } else {
                    BodyView::Refused {
                        id: w.id,
                        code: AGENT_REFUSED@,
                        detail: crate::daemon::or_words(error, "the agent refused it"@),
                    }
                },
            )
        }),
{
    reveal_strlit("boot");
    reveal_strlit("c-");
    assert(answer@[0] == 'c');
    assert(BOOT@[0] == 'b');
    assert forall|j: int| 0 <= j < i implies correlation(#[trigger] s.pending[j].number) != answer@ by {
        law_correlations_are_distinct(s.pending[j].number, s.pending[i].number);
    }
    lemma_found(s, answer@, 0, i);
}

proof fn lemma_not_found(pending: Seq<crate::daemon::WaitingView>, id: Seq<char>, from: int)
    requires
        0 <= from,
        forall|j: int| from <= j < pending.len() ==> correlation(#[trigger] pending[j].number) != id,
    ensures
        find_waiting(pending, id, from) is None,
    decreases pending.len() - from,
{
    if from < pending.len() {
        lemma_not_found(pending, id, from + 1);
    }
}

/// An answer is delivered once: once the agent's answer under one
/// correlation has reached the client waiting on it, the same answer again
/// reaches nobody and changes nothing.
pub proof fn law_an_answer_is_delivered_once(
    s: ServiceView,
    i: int,
    success: bool,
    error: Option<String>,
    answer: String,
    session_file: Option<String>,
    streaming: bool,
)
    requires
        coherent(s),
        0 <= i < s.pending.len(),
        answer@ == correlation(s.pending[i].number),
    ensures
        ({
            let event = AgentEvent::Response { id: Some(answer), success, error, session_file, streaming };
            let once = on_event(s, event).0;
            &&& on_event(once, event).0 == once
            &&& on_event(once, event).1 == Seq::<EffectView>::empty()
        }),
{
    law_the_client_that_asked_is_the_client_that_is_answered(s, i, success, error, answer, session_file, streaming);
    reveal_strlit("boot");
    reveal_strlit("c-");
    assert(answer@[0] == 'c');
    assert(BOOT@[0] == 'b');
    let rest = s.pending.remove(i);
    assert forall|j: int| 0 <= j < rest.len() implies correlation(#[trigger] rest[j].number) != answer@ by {
        let k = if j < i { j } else { j + 1 };
        assert(rest[j] == s.pending[k]);
        law_correlations_are_distinct(s.pending[k].number, s.pending[i].number);
    }
    lemma_not_found(rest, answer@, 0);
}

/// The agent's answer to the question the service asks it on every start
/// is what proves the start healthy: a successful answer clears the count of
/// quick deaths, so the next quick death is the first in a row and is
/// restarted rather than given up on.
pub proof fn law_a_healthy_start_clears_the_failures(
    s: ServiceView,
    boot: String,
    session_file: Option<String>,
    streaming: bool,
    ran: u64,
)
    requires
        boot@ == BOOT@,
    ensures
        ({
            let event = AgentEvent::Response { id: Some(boot), success: true, error: None, session_file, streaming };
            let t = on_event(s, event).0;
            &&& t.failures == 0
            &&& (!t.stopping && t.lease is None && ran < crate::daemon::HEALTHY_MILLIS) ==> {
                let (u, effects) = crate::daemon::on_ended(t, t.generation, ran);
                &&& u.failures == 1
                &&& effects.len() > 0
                &&& effects.last() == EffectView::Retry
            }
        }),
{
}

/// A state that did not change reaches nobody; one that did reaches every
/// frontend once, and there is at most one.
pub proof fn law_state_changes_reach_frontends_and_repeats_do_not(s: ServiceView, state: Condition, detail: Seq<char>)
    requires
        coherent(s),
    ensures
        state == s.state && detail == s.detail ==> with_state(s, state, detail).1.len() == 0,
        s.lease is None && !(state == s.state && detail == s.detail) ==> with_state(s, state, detail).1
            == to_frontends(s.clients, BodyView::State { id: None, state, detail }),
        with_state(s, state, detail).1.len() <= 1,
{
}

/// A second frontend takes the first one's place: after a frontend says
/// hello it is the only frontend, and every other one is let go.
pub proof fn law_a_second_frontend_takes_the_first_ones_place(s: ServiceView, client: u64)
    requires
        coherent(s),
    ensures
        frontends(on_register(s, client, Role::Frontend).0.clients) == seq![client],
        role_of(on_register(s, client, Role::Frontend).0.clients, client) == Some(Role::Frontend),
{
    let r = remaining(s.clients, client, Role::Frontend);
    crate::daemon::lemma_remaining(s.clients, client, Role::Frontend);
    let t = r.push((client, Role::Frontend));
    assert(t.drop_last() =~= r);
    assert(frontends(t) =~= frontends(r).push(client));
}

proof fn lemma_control_displaces_nobody(clients: Seq<(u64, Role)>, client: u64)
    ensures
        displaced(clients, client, Role::Control) == Seq::<EffectView>::empty(),
    decreases clients.len(),
{
    if clients.len() > 0 {
        lemma_control_displaces_nobody(clients.drop_last(), client);
    }
}

/// Saying hello hands each role what it is owed: a frontend is welcomed and
/// given the state and then the conversation, oldest line first, after every
/// other frontend is let go; a control client is welcomed and given nothing
/// else, and lets nobody go.
pub proof fn law_hello_hands_each_role_what_it_is_owed(s: ServiceView, client: u64)
    ensures
        on_register(s, client, Role::Frontend).1 == displaced(s.clients, client, Role::Frontend) + seq![
            EffectView::Send { client, body: BodyView::Welcome { role: Role::Frontend } },
            EffectView::Send { client, body: BodyView::State { id: None, state: s.state, detail: s.detail } },
        ] + s.transcript.map_values(|entry: EntryView| EffectView::Send { client, body: BodyView::Transcript { entry } }),
        on_register(s, client, Role::Control).1 == seq![
            EffectView::Send { client, body: BodyView::Welcome { role: Role::Control } },
        ],
{
    lemma_control_displaces_nobody(s.clients, client);
    assert(on_register(s, client, Role::Frontend).1 =~= displaced(s.clients, client, Role::Frontend) + seq![
        EffectView::Send { client, body: BodyView::Welcome { role: Role::Frontend } },
        EffectView::Send { client, body: BodyView::State { id: None, state: s.state, detail: s.detail } },
    ] + s.transcript.map_values(|entry: EntryView| EffectView::Send { client, body: BodyView::Transcript { entry } }));
    assert(on_register(s, client, Role::Control).1 =~= seq![
        EffectView::Send { client, body: BodyView::Welcome { role: Role::Control } },
    ]);
}

/// Losing the connection that holds the lease releases it, and the agent is
/// asked back unless the service is going down or one is already running.
pub proof fn law_losing_the_connection_releases_the_lease(s: ServiceView, client: u64)
    requires
        s.lease == Some(client),
    ensures
        on_unregister(s, client).0.lease is None,
        !s.stopping && !s.running ==> on_unregister(s, client).1 == seq![EffectView::Start],
{
}

/// Only a control client may take the session: anyone else is refused, and
/// nothing else changes.
pub proof fn law_only_a_control_client_may_take_the_session(s: ServiceView, client: u64, id: Seq<char>)
    requires
        s.lease is None,
        role_of(s.clients, client) != Some(Role::Control),
    ensures
        on_debug(s, client, id).0 == s,
        on_debug(s, client, id).1 == send_to(
            s.clients,
            client,
            BodyView::Refused { id, code: WRONG_ROLE@, detail: "only a control client may take the session"@ },
        ),
{
}

/// A control client that takes the session holds it: the lease is its, the
/// conversation is detached, it is handed the command line that resumes the
/// session, and while it holds the lease every debug asked, by anyone, is
/// refused as held and changes nothing.
pub proof fn law_a_taken_session_is_held_by_the_connection_that_took_it(
    s: ServiceView,
    client: u64,
    id: Seq<char>,
    other: u64,
    again: Seq<char>,
)
    requires
        s.lease is None,
        role_of(s.clients, client) == Some(Role::Control),
    ensures
        ({
            let (t, effects) = on_debug(s, client, id);
            let resume = BodyView::Debug {
                id,
                program: s.program,
                args: crate::daemon::resume_args(s.session_dir, s.session_file),
            };
            let handed = send_to(t.clients, client, resume);
            &&& t.lease == Some(client)
            &&& t.state == Condition::Detached
            &&& t.clients == s.clients
            &&& effects.len() >= handed.len()
            &&& effects.subrange(effects.len() - handed.len(), effects.len() as int) == handed
            &&& on_debug(t, other, again) == (
                t,
                send_to(
                    t.clients,
                    other,
                    BodyView::Refused { id: again, code: DEBUG_HELD@, detail: "a terminal already has the session"@ },
                ),
            )
        }),
{
    let (t, effects) = on_debug(s, client, id);
    let tail = send_to(t.clients, client, BodyView::Debug { id, program: s.program, args: crate::daemon::resume_args(s.session_dir, s.session_file) });
    let (t1, e1) = crate::daemon::fail_all(ServiceView { lease: Some(client), running: false, ..s }, "a terminal took the session"@);
    let (t2, e2) = with_state(t1, Condition::Detached, "a terminal has the session"@);
    let e3 = if s.running { seq![EffectView::Stop] } else { Seq::<EffectView>::empty() };
    assert(effects == e1 + e2 + e3 + tail);
    assert(effects.subrange(effects.len() - tail.len(), effects.len() as int) =~= tail);
}

/// A command is sent under a correlation no waiting command carries.
pub proof fn law_correlations_are_fresh(s: ServiceView, client: u64, id: Seq<char>, request: RequestView, j: int)
    requires
        coherent(s),
        s.lease is None,
        s.running,
        s.commands < u64::MAX,
        0 <= j < s.pending.len(),
    ensures
        on_command(s, client, id, request).1 == seq![
            EffectView::Forward { correlation: correlation((s.commands + 1) as u64), request },
        ],
        correlation(s.pending[j].number) != correlation((s.commands + 1) as u64),
{
    law_correlations_are_distinct(s.pending[j].number, (s.commands + 1) as u64);
}

/// The conversation a frontend is handed is a screenful that ends on the
/// latest line.
pub proof fn law_the_transcript_holds_a_screenful(s: ServiceView, entry: crate::daemon::TranscriptEntry)
    requires
        coherent(s),
    ensures
        ({
            let t = on_event(s, AgentEvent::MessageEnd { entry: Some(entry) }).0.transcript;
            &&& t.len() <= TRANSCRIPT_ENTRIES
            &&& t.last() == entry@
            &&& t.len() == if s.transcript.len() == TRANSCRIPT_ENTRIES {
                s.transcript.len()
            } else {
                s.transcript.len() + 1
            }
        }),
{
}

/// The service after the agent ended one message after another, each with a
/// line for the conversation.
pub open spec fn after_lines(s: ServiceView, lines: Seq<TranscriptEntry>) -> ServiceView
    decreases lines.len(),
{
    if lines.len() == 0 {
        s
    } else {
        on_event(after_lines(s, lines.drop_last()), AgentEvent::MessageEnd { entry: Some(lines.last()) }).0
    }
}

/// The last `k` lines of a conversation, oldest first: all of it when it is
/// no longer than that.
pub open spec fn latest(lines: Seq<EntryView>, k: nat) -> Seq<EntryView> {
    if lines.len() <= k {
        lines
    } else {
        lines.subrange(lines.len() - k, lines.len() as int)
    }
}

/// The conversation keeps the latest screenful however much is said: after
/// any number of lines the service holds the last [`TRANSCRIPT_ENTRIES`] of
/// everything said, oldest first, and a frontend that says hello afterwards
/// is handed exactly those, in order, after the state.
pub proof fn law_the_conversation_keeps_the_latest_screenful(
    s: ServiceView,
    lines: Seq<TranscriptEntry>,
    client: u64,
)
    requires
        s.transcript.len() <= TRANSCRIPT_ENTRIES,
    ensures
        ({
            let kept = latest(s.transcript + entries(lines), TRANSCRIPT_ENTRIES as nat);
            let after = after_lines(s, lines);
            &&& after.transcript == kept
            &&& on_register(after, client, Role::Frontend).1 == displaced(after.clients, client, Role::Frontend)
                + seq![
                EffectView::Send { client, body: BodyView::Welcome { role: Role::Frontend } },
                EffectView::Send {
                    client,
                    body: BodyView::State { id: None, state: after.state, detail: after.detail },
                },
            ] + kept.map_values(|entry: EntryView| EffectView::Send { client, body: BodyView::Transcript { entry } })
        }),
    decreases lines.len(),
{
    let k = TRANSCRIPT_ENTRIES as nat;
    if lines.len() == 0 {
        assert(s.transcript + entries(lines) =~= s.transcript);
    } else {
        let init = lines.drop_last();
        law_the_conversation_keeps_the_latest_screenful(s, init, client);
        let q = s.transcript + entries(init);
        let e = lines.last();
        assert(entries(lines) =~= entries(init).push(e@));
        assert(s.transcript + entries(lines) =~= q.push(e@));
        let t = latest(q, k);
        let q2 = q.push(e@);
        if t.len() == k {
            assert(latest(q2, k) =~= t.drop_first().push(e@));
        } else {
            assert(latest(q2, k) =~= t.push(e@));
        }
    }
    let after = after_lines(s, lines);
    let kept = latest(s.transcript + entries(lines), k);
    assert(on_register(after, client, Role::Frontend).1 =~= displaced(after.clients, client, Role::Frontend)
        + seq![
        EffectView::Send { client, body: BodyView::Welcome { role: Role::Frontend } },
        EffectView::Send { client, body: BodyView::State { id: None, state: after.state, detail: after.detail } },
    ] + kept.map_values(|entry: EntryView| EffectView::Send { client, body: BodyView::Transcript { entry } }));
}

/// The form's box never leaves the monitor: a box that fits lies wholly on
/// it, a box bigger than the monitor starts where the monitor does, and a box
/// that fits centred over the panel is centred over the panel.
pub proof fn law_the_box_never_leaves_the_monitor(start: int, length: int, monitor_start: int, monitor_length: int, size: int)
    requires
        0 <= size,
        0 <= monitor_length,
    ensures
        size <= monitor_length ==> monitor_start <= placed(start, length, monitor_start, monitor_length, size)
            && placed(start, length, monitor_start, monitor_length, size) + size <= monitor_start + monitor_length,
        size > monitor_length ==> placed(start, length, monitor_start, monitor_length, size) == monitor_start,
        monitor_start <= start + half(length - size) && start + half(length - size) + size <= monitor_start
            + monitor_length ==> placed(start, length, monitor_start, monitor_length, size) == start + half(
            length - size,
        ),
{
}

proof fn lemma_collapsed(s: Seq<char>)
    ensures
        forall|i: int| 0 <= i < collapsed(s).len() && is_white(#[trigger] collapsed(s)[i]) ==> collapsed(s)[i] == ' ',
        forall|i: int| 0 <= i < collapsed(s).len() - 1 && #[trigger] collapsed(s)[i] == ' ' ==> collapsed(s)[i + 1] != ' ',
    decreases s.len(),
{
    if s.len() > 0 {
        lemma_collapsed(s.drop_last());
        let r = collapsed(s.drop_last());
        let c = collapsed(s);
        assert(c.len() == r.len() || c.len() == r.len() + 1);
        assert(forall|i: int| 0 <= i < r.len() ==> c[i] == r[i]);
        if c.len() == r.len() + 1 {
            let x = c[r.len() as int];
            assert(x == ' ' || !is_white(s.last()) && x == s.last());
            assert forall|i: int| 0 <= i < c.len() - 1 && #[trigger] c[i] == ' ' implies c[i + 1] != ' ' by {
                if i + 1 == r.len() {
                    if is_white(s.last()) {
                        assert(r.last() != ' ');
                    } else {
                        assert(is_white(' '));
                    }
                }
            }
        }
    }
}

/// A one-line field answers with one line: what is sent carries no white
/// space but single spaces between words, and none at either end.
pub proof fn law_a_one_line_field_answers_with_one_line(said: Seq<char>)
    ensures
        ({
            let r = tidied(said, 1);
            &&& forall|i: int| 0 <= i < r.len() && is_white(#[trigger] r[i]) ==> r[i] == ' '
            &&& forall|i: int| 0 <= i < r.len() - 1 && #[trigger] r[i] == ' ' ==> r[i + 1] != ' '
            &&& r.len() > 0 ==> !is_white(r[0]) && !is_white(r[r.len() - 1])
        }),
{
    let c = collapsed(said);
    lemma_collapsed(said);
    lemma_trimmed(c);
    lemma_lead_bounds(c, 0);
    let a = lead_from(c, 0);
    lemma_trail_bounds(c, a, c.len() as int);
    let r = tidied(said, 1);
    assert forall|i: int| 0 <= i < r.len() && is_white(#[trigger] r[i]) implies r[i] == ' ' by {
        assert(r[i] == c[a + i]);
    }
    assert forall|i: int| 0 <= i < r.len() - 1 && #[trigger] r[i] == ' ' implies r[i + 1] != ' ' by {
        assert(r[i] == c[a + i]);
        assert(r[i + 1] == c[a + i + 1]);
    }
}

/// Whoever listens hears each change once: the listener is told only when
/// speaking turns into silence or silence into speaking, and telling the same
/// thing twice in a row tells it once.
pub proof fn law_each_change_is_heard_once(v: VoiceView, speaking: bool)
    ensures
        telling(v, speaking).0.speaking == speaking,
        telling(v, speaking).1 == if v.speaking == speaking {
            Seq::<CueView>::empty()
        } else {
            seq![CueView::Tell { speaking }]
        },
        telling(telling(v, speaking).0, speaking).1 == Seq::<CueView>::empty(),
{
}

/// A new paragraph cuts what is being spoken: while something plays, a
/// paragraph with words to say first stops it and then starts the new one,
/// and the listener, told of speech, is not told of a silence between them.
/// A muted speaker, or one with no synthesiser, starts nothing and tells
/// nothing.
pub proof fn law_a_new_paragraph_cuts_what_is_being_spoken(v: VoiceView, text: Seq<char>)
    ensures
        !v.muted && v.configured && spoken(text).len() > 0 && v.playing ==> {
            let (w, cues) = saying(v, text);
            &&& cues.len() == 2
            &&& cues[0] == CueView::Cut
            &&& cues[1] == CueView::Play { utterance: w.utterance, text: spoken(text) }
            &&& !w.playing
            &&& w.speaking == v.speaking
        },
        v.muted || !v.configured ==> saying(v, text) == (v, Seq::<CueView>::empty()),
{
}

/// One thing that can happen to the speaker: a paragraph to say, an
/// utterance that started, would not start or ended, a hush, or the mute set
/// or taken back.
pub enum VoiceStep {
    Say(Seq<char>),
    Started(u64),
    Unstarted(u64),
    Hush,
    Ended(u64),
    Mute(bool),
}

/// What one step does to the speaker, as its contract says.
pub open spec fn voice_step(v: VoiceView, step: VoiceStep) -> (VoiceView, Seq<CueView>) {
    match step {
        VoiceStep::Say(text) => saying(v, text),
        VoiceStep::Started(u) => starting(v, u),
        VoiceStep::Unstarted(u) => unstarting(v, u),
        VoiceStep::Hush => hushing(v),
        VoiceStep::Ended(u) => ending(v, u),
        VoiceStep::Mute(muted) => if muted {
            hushing(VoiceView { muted, ..v })
        } else {
            (VoiceView { muted, ..v }, Seq::empty())
        },
    }
}

/// The speaker after a run of steps, and every cue the run handed over.
pub open spec fn voice_run(v: VoiceView, steps: Seq<VoiceStep>) -> (VoiceView, Seq<CueView>)
    decreases steps.len(),
{
    if steps.len() == 0 {
        (v, Seq::empty())
    } else {
        let (w, cues) = voice_run(v, steps.drop_last());
        let (x, more) = voice_step(w, steps.last());
        (x, cues + more)
    }
}

/// What the listener is told, in order, by a list of cues.
pub open spec fn heard(cues: Seq<CueView>) -> Seq<bool>
    decreases cues.len(),
{
    if cues.len() == 0 {
        Seq::empty()
    } else {
        match cues.last() {
            CueView::Tell { speaking } => heard(cues.drop_last()).push(speaking),
            _ => heard(cues.drop_last()),
        }
    }
}

proof fn lemma_heard_concat(a: Seq<CueView>, b: Seq<CueView>)
    ensures
        heard(a + b) == heard(a) + heard(b),
    decreases b.len(),
{
    if b.len() == 0 {
        assert(a + b =~= a);
        assert(heard(a) + heard(b) =~= heard(a));
    } else {
        lemma_heard_concat(a, b.drop_last());
        assert((a + b).drop_last() =~= a + b.drop_last());
        match b.last() {
            CueView::Tell { speaking } => {
                assert(heard(a) + heard(b) =~= (heard(a) + heard(b.drop_last())).push(speaking));
            },
            _ => {},
        }
    }
}

/// What one step tells: nothing, leaving the speaker as speaking or as
/// silent as it was, or the one change from it.
proof fn lemma_voice_step_tells_a_change(v: VoiceView, step: VoiceStep)
    ensures
        ({
            let (w, cues) = voice_step(v, step);
            ||| heard(cues) == Seq::<bool>::empty() && w.speaking == v.speaking
            ||| heard(cues) == seq![!v.speaking] && w.speaking == !v.speaking
        }),
{
    let (w, cues) = voice_step(v, step);
    reveal_with_fuel(heard, 3);
    let cut = seq![CueView::Cut];
    assert(heard(cut) =~= Seq::<bool>::empty());
    assert(heard(Seq::<CueView>::empty()) =~= Seq::<bool>::empty());
    match step {
        VoiceStep::Say(text) => {
            if !(v.muted || !v.configured || spoken(text).len() == 0) {
                let u = (if v.utterance == u64::MAX { 0 } else { v.utterance + 1 }) as u64;
                let play = seq![CueView::Play { utterance: u, text: spoken(text) }];
                assert(heard(play) =~= Seq::<bool>::empty());
                lemma_heard_concat(cut, play);
            }
        },
        VoiceStep::Started(u) => {},
        VoiceStep::Unstarted(u) => {},
        VoiceStep::Hush => {
            if v.playing {
                let u = (if v.utterance == u64::MAX { 0 } else { v.utterance + 1 }) as u64;
                let t = telling(VoiceView { utterance: u, playing: false, ..v }, false);
                lemma_heard_concat(cut, t.1);
            }
        },
        VoiceStep::Ended(u) => {},
        VoiceStep::Mute(muted) => {
            if muted {
                let m = VoiceView { muted, ..v };
                if m.playing {
                    let u = (if m.utterance == u64::MAX { 0 } else { m.utterance + 1 }) as u64;
                    let t = telling(VoiceView { utterance: u, playing: false, ..m }, false);
                    lemma_heard_concat(cut, t.1);
                }
            }
        },
    }
}

/// Whoever listens hears speaking and silence alternate, whatever happens to
/// the speaker: across any run of steps each thing it is told is the
/// opposite of the one before, the first is the opposite of how the speaker
/// stood, and it is left standing as it was last told.
pub proof fn law_the_listener_hears_speech_and_silence_alternate(v: VoiceView, steps: Seq<VoiceStep>)
    ensures
        ({
            let (w, cues) = voice_run(v, steps);
            let told = heard(cues);
            &&& forall|i: int| 0 <= i < told.len() ==> #[trigger] told[i] == (if i % 2 == 0 {
                !v.speaking
            } else {
                v.speaking
            })
            &&& w.speaking == (if told.len() % 2 == 0 {
                v.speaking
            } else {
                !v.speaking
            })
        }),
    decreases steps.len(),
{
    if steps.len() == 0 {
        assert(heard(Seq::<CueView>::empty()) =~= Seq::<bool>::empty());
    } else {
        law_the_listener_hears_speech_and_silence_alternate(v, steps.drop_last());
        let (w, cues) = voice_run(v, steps.drop_last());
        let (x, more) = voice_step(w, steps.last());
        lemma_voice_step_tells_a_change(w, steps.last());
        lemma_heard_concat(cues, more);
        let told = heard(cues);
        let all = heard(cues + more);
        assert forall|i: int| 0 <= i < all.len() implies #[trigger] all[i] == (if i % 2 == 0 {
            !v.speaking
        } else {
            v.speaking
        }) by {
            if i < told.len() {
                assert(all[i] == told[i]);
            } else {
                assert(all[i] == !w.speaking);
            }
        }
    }
}

/// One utterance at a time, and the last word is the current one: an
/// utterance that was replaced or cut is stopped if it ever starts, and its
/// end reports no silence over the one that replaced it.
pub proof fn law_a_replaced_utterance_is_never_heard(v: VoiceView, u: u64)
    requires
        u != v.utterance,
    ensures
        starting(v, u) == (v, seq![CueView::Cut]),
        ending(v, u) == (v, Seq::<CueView>::empty()),
{
}

/// A muted speaker takes nothing new, and muting cuts what is playing.
pub proof fn law_a_muted_speaker_cuts_what_is_playing_and_takes_nothing_new(v: VoiceView, text: Seq<char>)
    ensures
        v.muted ==> saying(v, text) == (v, Seq::<CueView>::empty()),
        v.playing ==> hushing(v).0.playing == false && hushing(v).1[0] == CueView::Cut,
        v.playing && v.speaking ==> hushing(v).1 == seq![CueView::Cut, CueView::Tell { speaking: false }],
{
    if v.playing && v.speaking {
        assert(seq![CueView::Cut] + seq![CueView::Tell { speaking: false }] =~= seq![CueView::Cut, CueView::Tell { speaking: false }]);
    }
}

/// What a saved transcript is read back as, from a regular file, is that
/// transcript, and a tombstone reads back as nothing to restore.
pub proof fn law_what_is_saved_is_what_is_read_back(record: crate::pending::Record, length: nat)
    requires
        record.version == crate::pending::VERSION,
        crate::control::identifier(record.id@),
        length <= crate::pending::MAX_PENDING_BYTES,
    ensures
        !record.discarded && crate::control::submission_text(record.text@) ==> crate::pending::restored(
            true,
            length,
            Some(record),
        ) == Ok::<Option<(Seq<char>, Seq<char>)>, crate::pending::PendingError>(Some((record.id@, record.text@))),
        record.discarded ==> crate::pending::restored(true, length, Some(record)) == Ok::<
            Option<(Seq<char>, Seq<char>)>,
            crate::pending::PendingError,
        >(None),
{
}


proof fn lemma_slot_of_bounds(action: Seq<(Seq<char>, crate::form::ActionView)>, key: Seq<char>)
    ensures
        -1 <= slot_of(action, key) < action.len(),
        slot_of(action, key) >= 0 ==> action[slot_of(action, key)].0 == key,
        slot_of(action, key) < 0 ==> forall|i: int| 0 <= i < action.len() ==> (#[trigger] action[i]).0 != key,
    decreases action.len(),
{
    if action.len() > 0 {
        let init = action.drop_last();
        lemma_slot_of_bounds(init, key);
        if slot_of(action, key) < 0 {
            assert forall|i: int| 0 <= i < action.len() implies (#[trigger] action[i]).0 != key by {
                if i < init.len() {
                    assert(init[i] == action[i]);
                }
            }
        }
    }
}

/// An answer lands under its own name and nowhere else: after it is laid
/// into an action the name holds it, every entry under another name is as it
/// was, and the action grows only when it had no entry under that name.
pub proof fn law_an_answer_is_laid_under_its_own_name_only(
    action: Seq<(Seq<char>, crate::form::ActionView)>,
    key: Seq<char>,
    text: Seq<char>,
)
    ensures
        ({
            let after = laid(action, key, text);
            let at = slot_of(action, key);
            &&& after.len() == if at >= 0 {
                action.len()
            } else {
                action.len() + 1
            }
            &&& exists|i: int| 0 <= i < after.len() && #[trigger] after[i] == (key, crate::form::ActionView::Text(text))
            &&& forall|i: int| 0 <= i < action.len() && (#[trigger] action[i]).0 != key ==> after[i] == action[i]
            &&& forall|i: int| action.len() <= i < after.len() ==> (#[trigger] after[i]).0 == key
        }),
{
    lemma_slot_of_bounds(action, key);
    let after = laid(action, key, text);
    let at = slot_of(action, key);
    if at >= 0 {
        assert(after[at] == (key, crate::form::ActionView::Text(text)));
    } else {
        assert(after[action.len() as int] == (key, crate::form::ActionView::Text(text)));
    }
}

/// A field opens holding what the widget gave it to start with: in an
/// accepted ask each field's starting text is the widget's value for it,
/// exactly, and empty when the widget gave none.
pub proof fn law_a_field_starts_with_the_widgets_value(w: AskWords)
    ensures
        ask_of(w) is Ok ==> {
            let a = ask_of(w)->Ok_0;
            let ws = w.fields.unwrap()@;
            &&& a.fields.len() == ws.len()
            &&& forall|i: int|
                0 <= i < a.fields.len() ==> (#[trigger] a.fields[i]).value == match ws[i].value {
                    Some(v) => v@,
                    None => Seq::<char>::empty(),
                }
        },
{
    if ask_of(w) is Ok {
        let a = ask_of(w)->Ok_0;
        let ws = w.fields.unwrap()@;
        lemma_fields_of(ws);
        assert(fields_of(ws) == Ok::<_, Seq<char>>(a.fields));
        assert forall|i: int| 0 <= i < a.fields.len() implies (#[trigger] a.fields[i]).value == match ws[i].value {
            Some(v) => v@,
            None => Seq::<char>::empty(),
        } by {
            assert(field_of(ws[i]) == Ok::<_, Seq<char>>(a.fields[i]));
        }
    }
}

/// The fields read in order are one for one the fields the ask lists, each
/// read on its own; and the list is refused when any one of them is.
proof fn lemma_fields_of(ws: Seq<FieldWords>)
    ensures
        match fields_of(ws) {
            Ok(fs) => fs.len() == ws.len() && forall|i: int|
                0 <= i < ws.len() ==> #[trigger] field_of(ws[i]) == Ok::<_, Seq<char>>(fs[i]),
            Err(_) => exists|i: int| 0 <= i < ws.len() && (#[trigger] field_of(ws[i])) is Err,
        },
    decreases ws.len(),
{
    if ws.len() > 0 {
        let init = ws.drop_last();
        lemma_fields_of(init);
        assert forall|i: int| 0 <= i < init.len() implies #[trigger] init[i] == ws[i] by {}
        match fields_of(init) {
            Ok(fs) => {
                if field_of(ws.last()) is Err {
                    assert(field_of(ws[ws.len() - 1]) is Err);
                } else {
                    let f = field_of(ws.last())->Ok_0;
                    let all = fs.push(f);
                    assert(fields_of(ws) == Ok::<_, Seq<char>>(all));
                    assert forall|i: int| 0 <= i < ws.len() implies #[trigger] field_of(ws[i]) == Ok::<
                        _,
                        Seq<char>,
                    >(all[i]) by {
                        if i < init.len() {
                            assert(init[i] == ws[i]);
                            assert(field_of(init[i]) == Ok::<_, Seq<char>>(fs[i]));
                        }
                    }
                }
            },
            Err(_) => {
                let i = choose|i: int| 0 <= i < init.len() && (#[trigger] field_of(init[i])) is Err;
                assert(field_of(ws[i]) is Err);
            },
        }
    }
}

/// What the form accepts of a widget's question is bounded by this build,
/// not by the widget: an ask that is not an object, carries no action object,
/// no title or no list of fields, lists no fields or more than [`FIELDS`], or
/// lists a field that is not an object or has no name or an empty one, is
/// refused; and an ask that is accepted has one to [`FIELDS`] fields, each one
/// to [`LINES`] lines under the name it was asked with, a title and every
/// label and hint the widget gave of at most [`WORDS`] characters, and the
/// field's own name, as it is, for a label the widget left out.
pub proof fn law_an_ask_is_bounded_by_this_build(w: AskWords)
    ensures
        (!w.object || w.action is None || w.title is None || w.fields is None || w.fields.unwrap()@.len() == 0
            || w.fields.unwrap()@.len() > FIELDS || exists|i: int|
            0 <= i < w.fields.unwrap()@.len() && {
                let f = #[trigger] w.fields.unwrap()@[i];
                !f.object || f.name is None || f.name.unwrap()@.len() == 0
            }) ==> ask_of(w) is Err,
        ask_of(w) is Ok ==> {
            let a = ask_of(w)->Ok_0;
            let ws = w.fields.unwrap()@;
            &&& 1 <= a.fields.len() <= FIELDS
            &&& a.fields.len() == ws.len()
            &&& a.title.len() <= WORDS
            &&& forall|i: int|
                0 <= i < a.fields.len() ==> {
                    let f = #[trigger] a.fields[i];
                    &&& 1 <= f.lines <= LINES
                    &&& f.name == ws[i].name.unwrap()@
                    &&& (ws[i].label is Some ==> f.label.len() <= WORDS)
                    &&& (ws[i].label is None ==> f.label == f.name)
                    &&& f.hint.len() <= WORDS
                }
        },
{
    if w.object && w.action is Some && w.title is Some && w.fields is Some {
        let ws = w.fields.unwrap()@;
        lemma_fields_of(ws);
        if exists|i: int|
            0 <= i < ws.len() && {
                let f = #[trigger] ws[i];
                !f.object || f.name is None || f.name.unwrap()@.len() == 0
            } {
            let i = choose|i: int|
                0 <= i < ws.len() && {
                    let f = #[trigger] ws[i];
                    !f.object || f.name is None || f.name.unwrap()@.len() == 0
                };
            assert(field_of(ws[i]) is Err);
        }
        if ask_of(w) is Ok {
            let a = ask_of(w)->Ok_0;
            assert forall|i: int| 0 <= i < a.fields.len() implies {
                let f = #[trigger] a.fields[i];
                &&& 1 <= f.lines <= LINES
                &&& f.name == ws[i].name.unwrap()@
                &&& (ws[i].label is Some ==> f.label.len() <= WORDS)
                &&& (ws[i].label is None ==> f.label == f.name)
                &&& f.hint.len() <= WORDS
            } by {
                assert(fields_of(ws) == Ok::<_, Seq<char>>(a.fields));
                assert(i < ws.len());
                assert(field_of(ws[i]) == Ok::<_, Seq<char>>(a.fields[i]));
                let fw = ws[i];
                assert(fw.object && fw.name is Some);
                assert(a.fields[i].lines == line_count(fw.lines));
                assert(1 <= a.fields[i].lines <= LINES);
                assert(a.fields[i].name == fw.name.unwrap()@);
                assert(a.fields[i].hint.len() <= WORDS);
            }
        }
    }
}

} // verus!
