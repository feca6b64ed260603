//! What the display answers about the companion's windows, as far as it can
//! be worked out without one.
//!
//! The keyboard is followed up the window tree: the toolkit puts windows
//! inside the window it gives out, and the keyboard can land on any of them.
use vstd::prelude::*;

verus! {

/// How far up the window tree the keyboard is followed. Bounded because a
/// tree is only walked upwards on trust.
pub const DEPTH: usize = 8;

/// What the display answered about one window.
#[derive(Debug, Clone, Copy, PartialEq, Eq, Structural)]
pub enum Verdict {
    /// The display says so.
    Yes,
    /// The display says otherwise, and has had long enough to say something
    /// else.
    No,
    /// Nothing could say. Not a failure: a question nobody was in a position
    /// to answer.
    Unsure,
}

/// Answers whether one focus reply names no window at all: the display
/// answers 0 for `None` and 1 for `PointerRoot`, and neither is a client that
/// was given the keyboard.
pub fn unheld(focus: u32) -> (r: bool)
    ensures
        r == (focus <= 1),
{
    focus <= 1
}

/// A walk up the window tree from `path[0]` to its last window: each step is
/// a parent the lookup answered, taken from a window that is neither one of
/// the two answers about the screen nor the window looked for.
pub open spec fn walked<F: Fn(u32) -> Option<u32>>(parent: F, path: Seq<u32>, window: u32) -> bool {
    &&& path.len() >= 1
    &&& forall|k: int| 0 <= k < path.len() - 1 ==> #[trigger] path[k] > 1 && path[k] != window
        && call_ensures(parent, (path[k],), Some(path[k + 1]))
}

/// Where a walk up the window tree that never met the window stopped: at one
/// of the two answers about the screen, at a window the lookup gave no
/// parent for, or after [`DEPTH`] lookups.
pub open spec fn stopped<F: Fn(u32) -> Option<u32>>(parent: F, path: Seq<u32>, window: u32) -> bool {
    ||| path.len() == DEPTH + 1
    ||| path.len() <= DEPTH && path.last() != window && (path.last() <= 1 || call_ensures(
        parent,
        (path.last(),),
        None::<u32>,
    ))
}

/// Answers whether the keyboard is inside one window: on the window itself,
/// or on anything the toolkit put inside it, no more than [`DEPTH`] windows
/// up. Every answer is the walk of parents the lookup gave from the focus,
/// one lookup per step and so at most [`DEPTH`] lookups: a true answer is a
/// walk that reached the window, and a false one a walk that never met it and
/// stopped where [`stopped`] says.
pub fn holds<F: Fn(u32) -> Option<u32>>(focus: u32, window: u32, parent: F) -> (r: bool)
    requires
        forall|w: u32| call_requires(parent, (w,)),
    ensures
        focus == window ==> r,
        focus != window && focus <= 1 ==> !r,
        r ==> exists|path: Seq<u32>|
            path.len() <= DEPTH && path[0] == focus && path.last() == window && #[trigger] walked(
                parent,
                path,
                window,
            ),
        !r ==> exists|path: Seq<u32>|
            path[0] == focus && #[trigger] walked(parent, path, window) && stopped(parent, path, window),
{
    let mut at = focus;
    let ghost mut path: Seq<u32> = seq![focus];
    let mut steps: usize = 0;
    while steps < DEPTH
        invariant
            steps <= DEPTH,
            forall|w: u32| call_requires(parent, (w,)),
            path.len() == steps + 1,
            path[0] == focus,
            path.last() == at,
            walked(parent, path, window),
            steps > 0 ==> focus > 1 && focus != window,
        decreases DEPTH - steps,
    {
        if at == window {
            proof {
                assert(path.len() <= DEPTH);
            }
            return true;
        }
        if at <= 1 {
            proof {
                assert(stopped(parent, path, window));
            }
            return false;
        }
        match parent(at) {
            Some(above) => {
                proof {
                    let next = path.push(above);
                    assert(next.drop_last() =~= path);
                    assert forall|k: int| 0 <= k < next.len() - 1 implies #[trigger] next[k] > 1 && next[k]
                        != window && call_ensures(parent, (next[k],), Some(next[k + 1])) by {
                        if k < path.len() - 1 {
                            assert(next[k] == path[k]);
                            assert(next[k + 1] == path[k + 1]);
                        } else {
                            assert(next[k] == at);
                        }
                    }
                    path = next;
                }
                at = above;
            },
            None => {
                proof {
                    assert(stopped(parent, path, window));
                }
                return false;
            },
        }
        steps = steps + 1;
    }
    proof {
        assert(stopped(parent, path, window));
    }
    false
}

/// Answers whether the keyboard is on no window at all, from whether a window
/// can be asked about from here and what the display answered for the focus,
/// if it answered. A display nothing can be asked of answers `Unsure`, and
/// `Unsure` is never a reason to take anything.
pub fn nobody_holds_the_keyboard(reachable: bool, focus: Option<u32>) -> (r: Verdict)
    ensures
        r == if !reachable {
            Verdict::Unsure
        } else {
            match focus {
                None => Verdict::Unsure,
                Some(f) => if f <= 1 {
                    Verdict::Yes
                } else {
                    Verdict::No
                },
            }
        },
{
    if !reachable {
        return Verdict::Unsure;
    }
    match focus {
        None => Verdict::Unsure,
        Some(f) => if unheld(f) {
            Verdict::Yes
        } else {
            Verdict::No
        },
    }
}

/// What waiting for one answer comes to, from the last answer the display
/// gave: the wanted answer is a yes, and otherwise a display that never could
/// say anything proves nothing with the time it took.
pub fn settled(last: Verdict, wanted: Verdict) -> (r: Verdict)
    ensures
        r == if last == wanted {
            Verdict::Yes
        } else if last == Verdict::Unsure {
            Verdict::Unsure
        } else {
            Verdict::No
        },
{
    if last == wanted {
        Verdict::Yes
    } else if last == Verdict::Unsure {
        Verdict::Unsure
    } else {
        Verdict::No
    }
}

} // verus!
