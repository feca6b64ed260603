//! What the speaker decides: one utterance at a time, a new paragraph cuts the
//! one being spoken, muting cuts what is playing, and whoever listens hears
//! each change between speaking and silence once.
//!
//! The synthesiser itself is the runtime's to start, feed and stop; it hands
//! this what came of it, and carries out the cues this hands back.
use vstd::prelude::*;

use crate::speech::{bounded, spoken};

verus! {

/// What the runtime around the speaker does next.
#[derive(Debug, Clone, PartialEq, Eq)]
pub enum Cue {
    /// Start the synthesiser on one paragraph, as utterance `utterance`, and
    /// report it with [`Voice::started`] once it runs, or with
    /// [`Voice::unstarted`] when it would not start.
    Play { utterance: u64, text: String },
    /// Stop whatever the synthesiser is playing.
    Cut,
    /// Tell the listener whether the companion is speaking now.
    Tell { speaking: bool },
}

/// One cue, as values.
pub enum CueView {
    Play { utterance: u64, text: Seq<char> },
    Cut,
    Tell { speaking: bool },
}

impl View for Cue {
    type V = CueView;

    open spec fn view(&self) -> CueView {
        match self {
            Cue::Play { utterance, text } => CueView::Play { utterance: *utterance, text: text@ },
            Cue::Cut => CueView::Cut,
            Cue::Tell { speaking } => CueView::Tell { speaking: *speaking },
        }
    }
}

/// The cues handed over, as values.
pub open spec fn cues_view(v: Seq<Cue>) -> Seq<CueView> {
    v.map_values(|c: Cue| c@)
}

/// The speaker's own state.
pub struct Voice {
    /// Whether a synthesiser is configured at all.
    configured: bool,
    /// Whether the person has asked for silence.
    muted: bool,
    /// The newest utterance.
    utterance: u64,
    /// Whether an utterance is playing.
    playing: bool,
    /// What the listener was last told.
    speaking: bool,
}

/// The speaker's state, as values.
#[verifier::ext_equal]
pub struct VoiceView {
    pub configured: bool,
    pub muted: bool,
    pub utterance: u64,
    pub playing: bool,
    pub speaking: bool,
}

impl View for Voice {
    type V = VoiceView;

    closed spec fn view(&self) -> VoiceView {
        VoiceView {
            configured: self.configured,
            muted: self.muted,
            utterance: self.utterance,
            playing: self.playing,
            speaking: self.speaking,
        }
    }
}

/// The listener told, and only of a change.
pub open spec fn telling(v: VoiceView, speaking: bool) -> (VoiceView, Seq<CueView>) {
    if v.speaking == speaking {
        (v, Seq::empty())
    } else {
        (VoiceView { speaking, ..v }, seq![CueView::Tell { speaking }])
    }
}

/// One paragraph to say: dropped when muted, when there is no synthesiser,
/// and when nothing of it is left to say; otherwise a new utterance, which
/// first cuts whatever is being spoken now. The listener is not told of the
/// silence between the two: the companion goes on speaking.
pub open spec fn saying(v: VoiceView, text: Seq<char>) -> (VoiceView, Seq<CueView>) {
    if v.muted || !v.configured || spoken(text).len() == 0 {
        (v, Seq::empty())
    } else {
        let u = (if v.utterance == u64::MAX {
            0
        } else {
            v.utterance + 1
        }) as u64;
        let play = seq![CueView::Play { utterance: u, text: spoken(text) }];
        if v.playing {
            (VoiceView { utterance: u, playing: false, ..v }, seq![CueView::Cut] + play)
        } else {
            (VoiceView { utterance: u, ..v }, play)
        }
    }
}

/// Utterance `u` would not start. When it is the newest, nothing plays, and
/// a listener still told of speech hears the silence.
pub open spec fn unstarting(v: VoiceView, u: u64) -> (VoiceView, Seq<CueView>) {
    if u != v.utterance || v.playing {
        (v, Seq::empty())
    } else {
        telling(v, false)
    }
}

/// Utterance `u` started playing: it is what plays now, replacing whatever
/// played before, and the listener hears that the companion speaks. An
/// utterance that is no longer the newest is cut at once.
pub open spec fn starting(v: VoiceView, u: u64) -> (VoiceView, Seq<CueView>) {
    if u != v.utterance {
        (v, seq![CueView::Cut])
    } else {
        let (t, e) = telling(VoiceView { playing: true, ..v }, true);
        (t, e)
    }
}

/// Whatever is playing is cut, and the listener hears the silence if there
/// was something to cut.
pub open spec fn hushing(v: VoiceView) -> (VoiceView, Seq<CueView>) {
    let u = (if v.utterance == u64::MAX {
        0
    } else {
        v.utterance + 1
    }) as u64;
    if v.playing {
        let (t, e) = telling(VoiceView { utterance: u, playing: false, ..v }, false);
        (t, seq![CueView::Cut] + e)
    } else {
        (VoiceView { utterance: u, ..v }, Seq::empty())
    }
}

/// Utterance `u` finished on its own. Only the newest one's silence is
/// reported: a cut utterance's end says nothing over the one that cut it.
pub open spec fn ending(v: VoiceView, u: u64) -> (VoiceView, Seq<CueView>) {
    if u != v.utterance || !v.playing {
        (v, Seq::empty())
    } else {
        telling(VoiceView { playing: false, ..v }, false)
    }
}

fn one(c: Cue) -> (r: Vec<Cue>)
    ensures
        cues_view(r@) == seq![c@],
{
    let mut v = Vec::new();
    v.push(c);
    proof {
        assert(cues_view(v@) =~= seq![c@]);
    }
    v
}

fn none() -> (r: Vec<Cue>)
    ensures
        cues_view(r@) == Seq::<CueView>::empty(),
{
    let v: Vec<Cue> = Vec::new();
    proof {
        assert(cues_view(v@) =~= Seq::<CueView>::empty());
    }
    v
}

impl Voice {
    /// A speaker, with a synthesiser or without one. No synthesiser is a
    /// deployment that says nothing aloud, not a fault.
    pub fn new(configured: bool) -> (r: Voice)
        ensures
            r@ == (VoiceView { configured, muted: false, utterance: 0, playing: false, speaking: false }),
    {
        Voice { configured, muted: false, utterance: 0, playing: false, speaking: false }
    }

    /// Whether the person has asked for silence.
    pub fn muted(&self) -> (r: bool)
        ensures
            r == self@.muted,
    {
        self.muted
    }

    /// The newest utterance.
    pub fn utterance(&self) -> (r: u64)
        ensures
            r == self@.utterance,
    {
        self.utterance
    }

    fn tell(&mut self, speaking: bool) -> (r: Vec<Cue>)
        ensures
            final(self)@ == telling(old(self)@, speaking).0,
            cues_view(r@) == telling(old(self)@, speaking).1,
    {
        if self.speaking == speaking {
            return none();
        }
        self.speaking = speaking;
        one(Cue::Tell { speaking })
    }

    /// Asks for silence, or takes the ask back, and answers whether it is
    /// muted now. Muting cuts what is being spoken.
    pub fn mute(&mut self, muted: bool) -> (r: (bool, Vec<Cue>))
        ensures
            r.0 == muted,
            final(self)@ == if muted {
                hushing(VoiceView { muted, ..old(self)@ }).0
            } else {
                VoiceView { muted, ..old(self)@ }
            },
            cues_view(r.1@) == if muted {
                hushing(VoiceView { muted, ..old(self)@ }).1
            } else {
                Seq::<CueView>::empty()
            },
    {
        self.muted = muted;
        if muted {
            let cues = self.hush();
            (muted, cues)
        } else {
            (muted, none())
        }
    }

    /// Speaks one paragraph, cutting whatever is being spoken now. What is
    /// handed to the synthesiser is the paragraph as it can be said aloud.
    pub fn say(&mut self, text: String) -> (r: Vec<Cue>)
        ensures
            final(self)@ == saying(old(self)@, text@).0,
            cues_view(r@) == saying(old(self)@, text@).1,
    {
        if self.muted || !self.configured {
            return none();
        }
        let said = bounded(text);
        if said.as_str().unicode_len() == 0 {
            return none();
        }
        self.utterance = self.utterance.wrapping_add(1);
        let play = Cue::Play { utterance: self.utterance, text: said };
        if !self.playing {
            return one(play);
        }
        self.playing = false;
        let mut cues = one(Cue::Cut);
        let ghost first = cues@;
        cues.push(play);
        proof {
            assert(cues_view(cues@) =~= cues_view(first).push(play@));
            assert(seq![CueView::Cut] + seq![play@] =~= seq![CueView::Cut, play@]);
        }
        cues
    }

    /// Utterance `utterance` would not start.
    pub fn unstarted(&mut self, utterance: u64) -> (r: Vec<Cue>)
        ensures
            final(self)@ == unstarting(old(self)@, utterance).0,
            cues_view(r@) == unstarting(old(self)@, utterance).1,
    {
        if utterance != self.utterance || self.playing {
            return none();
        }
        self.tell(false)
    }

    /// Utterance `utterance` started playing.
    pub fn started(&mut self, utterance: u64) -> (r: Vec<Cue>)
        ensures
            final(self)@ == starting(old(self)@, utterance).0,
            cues_view(r@) == starting(old(self)@, utterance).1,
    {
        if utterance != self.utterance {
            return one(Cue::Cut);
        }
        self.playing = true;
        self.tell(true)
    }

    /// Cuts whatever is being spoken. Silence is not an error.
    pub fn hush(&mut self) -> (r: Vec<Cue>)
        ensures
            final(self)@ == hushing(old(self)@).0,
            cues_view(r@) == hushing(old(self)@).1,
    {
        self.utterance = self.utterance.wrapping_add(1);
        if !self.playing {
            return none();
        }
        self.playing = false;
        let mut cues = one(Cue::Cut);
        let mut told = self.tell(false);
        let ghost first = cues@;
        let ghost second = told@;
        cues.append(&mut told);
        proof {
            assert(cues_view(cues@) =~= cues_view(first) + cues_view(second));
        }
        cues
    }

    /// Utterance `utterance` finished on its own.
    pub fn ended(&mut self, utterance: u64) -> (r: Vec<Cue>)
        ensures
            final(self)@ == ending(old(self)@, utterance).0,
            cues_view(r@) == ending(old(self)@, utterance).1,
    {
        if utterance != self.utterance || !self.playing {
            return none();
        }
        self.playing = false;
        self.tell(false)
    }
}

} // verus!
