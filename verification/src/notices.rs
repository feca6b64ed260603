//! Ambient notices the service replays, kept in the order of their identifiers.
use vstd::prelude::*;

use crate::text::{precedes, same, text_less, lemma_text_less_total, lemma_text_less_transitive, lemma_text_less_irreflexive};

verus! {

/// What one ambient notice says.
#[derive(Debug, Clone, Copy, PartialEq, Eq, Structural)]
pub enum NoticeState {
    /// Something went wrong that the person should know about.
    Error,
    /// Something wants the person.
    Attention,
    /// The notice is over.
    Clear,
}

/// One notice, keyed by the identifier of what raised it.
#[derive(Debug)]
pub struct Notice {
    pub id: String,
    pub state: NoticeState,
    pub detail: String,
}

/// A notice, with its words as character sequences.
#[verifier::ext_equal]
pub struct NoticeView {
    pub id: Seq<char>,
    pub state: NoticeState,
    pub detail: Seq<char>,
}

impl View for Notice {
    type V = NoticeView;

    open spec fn view(&self) -> NoticeView {
        NoticeView { id: self.id@, state: self.state, detail: self.detail@ }
    }
}

/// The notices after one is raised, replaced, or cleared.
///
/// A sequence ordered by identifier: a notice goes where its identifier
/// belongs, replaces the one with the same identifier, and a cleared notice is
/// removed rather than kept.
pub open spec fn with_notice(s: Seq<NoticeView>, id: Seq<char>, state: NoticeState, detail: Seq<char>) -> Seq<NoticeView>
    decreases s.len(),
{
    let raised = NoticeView { id, state, detail };
    if s.len() == 0 {
        if state == NoticeState::Clear {
            s
        } else {
            seq![raised]
        }
    } else if s[0].id == id {
        if state == NoticeState::Clear {
            s.drop_first()
        } else {
            seq![raised] + s.drop_first()
        }
    } else if text_less(id, s[0].id) {
        if state == NoticeState::Clear {
            s
        } else {
            seq![raised] + s
        }
    } else {
        seq![s[0]] + with_notice(s.drop_first(), id, state, detail)
    }
}

/// The first notice of one state.
pub open spec fn first_of(s: Seq<NoticeView>, state: NoticeState) -> Option<NoticeView>
    decreases s.len(),
{
    if s.len() == 0 {
        None
    } else if s[0].state == state {
        Some(s[0])
    } else {
        first_of(s.drop_first(), state)
    }
}

/// The notice the tray shows: the first error, or else the first notice.
pub open spec fn notice_in(s: Seq<NoticeView>) -> Option<NoticeView> {
    match first_of(s, NoticeState::Error) {
        Some(n) => Some(n),
        None => if s.len() == 0 {
            None
        } else {
            Some(s[0])
        },
    }
}

/// Ordered strictly by identifier, and holding no cleared notice.
pub open spec fn ordered(s: Seq<NoticeView>) -> bool {
    &&& forall|i: int, j: int| 0 <= i < j < s.len() ==> text_less(#[trigger] s[i].id, #[trigger] s[j].id)
    &&& forall|i: int| 0 <= i < s.len() ==> #[trigger] s[i].state != NoticeState::Clear
}

/// Raising, replacing, or clearing a notice keeps the notices ordered by
/// identifier and free of cleared ones.
pub proof fn lemma_with_notice_ordered(s: Seq<NoticeView>, id: Seq<char>, state: NoticeState, detail: Seq<char>)
    requires
        ordered(s),
    ensures
        ordered(with_notice(s, id, state, detail)),
        forall|k: int| 0 <= k < with_notice(s, id, state, detail).len() ==> (#[trigger] with_notice(s, id, state, detail)[k].id == id || s.contains(with_notice(s, id, state, detail)[k])),
    decreases s.len(),
{
    let r = with_notice(s, id, state, detail);
    if s.len() == 0 {
    } else if s[0].id == id {
        assert forall|i: int, j: int| 0 <= i < j < r.len() implies text_less(#[trigger] r[i].id, #[trigger] r[j].id) by {
            if state == NoticeState::Clear {
                assert(r[i] == s[i + 1] && r[j] == s[j + 1]);
            } else if i == 0 {
                assert(r[j] == s[j]);
                assert(text_less(s[0].id, s[j].id));
            } else {
                assert(r[i] == s[i] && r[j] == s[j]);
            }
        }
        assert forall|k: int| 0 <= k < r.len() implies (#[trigger] r[k].id == id || s.contains(r[k])) by {
            if state == NoticeState::Clear {
                assert(r[k] == s[k + 1]);
            } else if k > 0 {
                assert(r[k] == s[k]);
            }
        }
    } else if text_less(id, s[0].id) {
        assert forall|i: int, j: int| 0 <= i < j < r.len() implies text_less(#[trigger] r[i].id, #[trigger] r[j].id) by {
            if state != NoticeState::Clear {
                if i == 0 {
                    assert(r[j] == s[j - 1]);
                    if j > 1 {
                        assert(text_less(s[0].id, s[j - 1].id));
                        lemma_text_less_transitive(id, s[0].id, s[j - 1].id);
                    }
                } else {
                    assert(r[i] == s[i - 1] && r[j] == s[j - 1]);
                }
            }
        }
        assert forall|k: int| 0 <= k < r.len() implies (#[trigger] r[k].id == id || s.contains(r[k])) by {
            if state != NoticeState::Clear && k > 0 {
                assert(r[k] == s[k - 1]);
            } else if state == NoticeState::Clear {
                assert(r[k] == s[k]);
            }
        }
    } else {
        let rest = s.drop_first();
        assert(ordered(rest)) by {
            assert forall|i: int, j: int| 0 <= i < j < rest.len() implies text_less(#[trigger] rest[i].id, #[trigger] rest[j].id) by {
                assert(rest[i] == s[i + 1] && rest[j] == s[j + 1]);
            }
            assert forall|i: int| 0 <= i < rest.len() implies #[trigger] rest[i].state != NoticeState::Clear by {
                assert(rest[i] == s[i + 1]);
            }
        }
        lemma_with_notice_ordered(rest, id, state, detail);
        let tail = with_notice(rest, id, state, detail);
        assert(r == seq![s[0]] + tail);
        lemma_text_less_total(id, s[0].id);
        assert forall|i: int, j: int| 0 <= i < j < r.len() implies text_less(#[trigger] r[i].id, #[trigger] r[j].id) by {
            if i == 0 {
                assert(r[j] == tail[j - 1]);
                if tail[j - 1].id == id {
                } else {
                    assert(rest.contains(tail[j - 1]));
                    let m = choose|m: int| 0 <= m < rest.len() && rest[m] == tail[j - 1];
                    assert(s[m + 1] == rest[m]);
                }
            } else {
                assert(r[i] == tail[i - 1] && r[j] == tail[j - 1]);
            }
        }
        assert forall|i: int| 0 <= i < r.len() implies #[trigger] r[i].state != NoticeState::Clear by {
            if i > 0 {
                assert(r[i] == tail[i - 1]);
            }
        }
        assert forall|k: int| 0 <= k < r.len() implies (#[trigger] r[k].id == id || s.contains(r[k])) by {
            if k == 0 {
                assert(s[0] == r[0]);
            } else {
                assert(r[k] == tail[k - 1]);
                if tail[k - 1].id != id {
                    let m = choose|m: int| 0 <= m < rest.len() && rest[m] == tail[k - 1];
                    assert(s[m + 1] == rest[m]);
                }
            }
        }
    }
}

/// Notices in the order of their identifiers.
#[derive(Debug)]
pub struct Notices {
    entries: Vec<Notice>,
}

impl View for Notices {
    type V = Seq<NoticeView>;

    closed spec fn view(&self) -> Seq<NoticeView> {
        self.entries@.map_values(|n: Notice| n@)
    }
}

impl Notices {
    /// Ordered by identifier, and holding no cleared notice.
    #[verifier::type_invariant]
    spec fn well_formed(self) -> bool {
        ordered(self.entries@.map_values(|n: Notice| n@))
    }

    /// No notices at all.
    pub fn new() -> (r: Self)
        ensures
            r@ == Seq::<NoticeView>::empty(),
    {
        let entries: Vec<Notice> = Vec::new();
        proof {
            assert(entries@.map_values(|n: Notice| n@) =~= Seq::<NoticeView>::empty());
        }
        Notices { entries }
    }

    /// Raises, replaces, or clears the notice with this identifier.
    pub fn set(&mut self, id: String, state: NoticeState, detail: String)
        ensures
            final(self)@ == with_notice(old(self)@, id@, state, detail@),
            ordered(old(self)@),
            ordered(final(self)@),
    {
        proof {
            use_type_invariant(&*self);
        }
        let ghost s = self@;
        let mut entries: Vec<Notice> = Vec::new();
        std::mem::swap(&mut entries, &mut self.entries);
        proof {
            assert(entries@.map_values(|n: Notice| n@) =~= s);
            assert(s.subrange(0, 0) =~= Seq::<NoticeView>::empty());
            assert(s.subrange(0, s.len() as int) =~= s);
        }
        let n = entries.len();
        let mut k: usize = 0;
        while k < n && precedes(entries[k].id.as_str(), id.as_str())
            invariant
                n == entries.len(),
                s == entries@.map_values(|n: Notice| n@),
                k <= n,
                with_notice(s, id@, state, detail@) == s.subrange(0, k as int) + with_notice(
                    s.subrange(k as int, n as int),
                    id@,
                    state,
                    detail@,
                ),
            decreases n - k,
        {
            proof {
                let t = s.subrange(k as int, n as int);
                assert(t[0] == s[k as int]);
                assert(t[0].id != id@) by {
                    lemma_text_less_irreflexive(id@);
                }
                assert(t.drop_first() =~= s.subrange(k + 1, n as int));
                assert(s.subrange(0, k + 1) =~= s.subrange(0, k as int) + seq![s[k as int]]);
                assert(!text_less(id@, t[0].id)) by {
                    if text_less(id@, t[0].id) {
                        lemma_text_less_transitive(id@, t[0].id, id@);
                        lemma_text_less_irreflexive(id@);
                    }
                }
                assert(with_notice(t, id@, state, detail@) == seq![t[0]] + with_notice(
                    t.drop_first(),
                    id@,
                    state,
                    detail@,
                ));
                assert(s.subrange(0, k as int) + (seq![s[k as int]] + with_notice(
                    t.drop_first(),
                    id@,
                    state,
                    detail@,
                )) =~= s.subrange(0, k + 1) + with_notice(t.drop_first(), id@, state, detail@));
            }
            k = k + 1;
        }
        let ghost t = s.subrange(k as int, n as int);
        let raised = Notice { id, state, detail };
        if k < n && same(entries[k].id.as_str(), raised.id.as_str()) {
            proof {
                assert(t[0] == s[k as int]);
                assert(t.drop_first() =~= s.subrange(k + 1, n as int));
            }
            if state == NoticeState::Clear {
                entries.remove(k);
            } else {
                entries.set(k, raised);
            }
        } else {
            proof {
                if k < n {
                    assert(t[0] == s[k as int]);
                    lemma_text_less_total(id@, s[k as int].id);
                }
            }
            if state != NoticeState::Clear {
                entries.insert(k, raised);
            }
        }
        proof {
            assert(entries@.map_values(|n: Notice| n@) =~= with_notice(s, id@, state, detail@));
            lemma_with_notice_ordered(s, id@, state, detail@);
        }
        self.entries = entries;
    }

    /// The notice the tray shows: the first error, or else the first notice.
    pub fn shown(&self) -> (r: Option<&Notice>)
        ensures
            match r {
                Some(n) => notice_in(self@) == Some(n@),
                None => notice_in(self@) is None,
            },
    {
        let n = self.entries.len();
        let mut i: usize = 0;
        proof {
            assert(self@.subrange(0, n as int) =~= self@);
        }
        while i < n
            invariant
                n == self.entries.len(),
                i <= n,
                first_of(self@, NoticeState::Error) == first_of(self@.subrange(i as int, n as int), NoticeState::Error),
            decreases n - i,
        {
            proof {
                let t = self@.subrange(i as int, n as int);
                assert(t[0] == self@[i as int]);
                assert(t.drop_first() =~= self@.subrange(i + 1, n as int));
            }
            if self.entries[i].state == NoticeState::Error {
                return Some(&self.entries[i]);
            }
            i = i + 1;
        }
        proof {
            assert(self@.subrange(n as int, n as int).len() == 0);
        }
        if n == 0 {
            None
        } else {
            Some(&self.entries[0])
        }
    }
}

} // verus!
