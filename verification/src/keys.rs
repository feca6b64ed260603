//! The keys that are arranged where no window is.
//!
//! Two keys cover the gap between the hotkey and the words arriving: the
//! cancel key, which stops a listen the person did not mean to start, and the
//! stop key, which stops Scufris. They are built from the hotkey's own
//! modifiers unless the deployment names them, and [`NONE`] takes one off the
//! companion entirely.
use vstd::prelude::*;
use vstd::string::StringExecFns;

use crate::text::same;

verus! {

/// The key that stops a listen.
pub const CANCEL: &'static str = "Escape";

/// The key that stops Scufris.
pub const STOP: &'static str = "Delete";

/// What a deployment writes to take one key off the companion.
pub const NONE: &'static str = "none";

/// What the deployment said about the keys beside the hotkey: each is what
/// was configured, and nothing is what was not.
#[derive(Debug, Clone, Copy, Default)]
pub struct Wanted<'a> {
    /// The accelerator that puts the pill away.
    pub cancel: Option<&'a str>,
    /// The accelerator that stops Scufris.
    pub stop: Option<&'a str>,
}

/// Where the last `+` of a text is, if it has one.
pub open spec fn last_plus(s: Seq<char>, to: int) -> Option<int>
    decreases to,
{
    if to <= 0 {
        None
    } else if s[to - 1] == '+' {
        Some(to - 1)
    } else {
        last_plus(s, to - 1)
    }
}

/// One key beside the hotkey, on the hotkey's own modifiers and nothing else:
/// nothing when the hotkey has no modifier.
pub open spec fn beside_text(hotkey: Seq<char>, key: Seq<char>) -> Option<Seq<char>> {
    match last_plus(hotkey, hotkey.len() as int) {
        Some(i) => Some(hotkey.subrange(0, i + 1) + key),
        None => None,
    }
}

/// The accelerator one key is grabbed on: none when the deployment took the
/// key off, the one it named when it named one, and otherwise the key beside
/// the hotkey.
pub open spec fn chosen_text(wanted: Option<Seq<char>>, hotkey: Seq<char>, key: Seq<char>) -> Option<Seq<char>> {
    match wanted {
        Some(w) => if w == NONE@ {
            None
        } else {
            Some(w)
        },
        None => beside_text(hotkey, key),
    }
}

/// Returns the accelerator text of one key beside the hotkey.
pub fn beside(hotkey: &str, key: &str) -> (r: Option<String>)
    ensures
        match r {
            Some(a) => beside_text(hotkey@, key@) == Some(a@),
            None => beside_text(hotkey@, key@) is None,
        },
{
    let n = hotkey.unicode_len();
    let mut to: usize = n;
    while to > 0
        invariant
            n == hotkey@.len(),
            to <= n,
            last_plus(hotkey@, n as int) == last_plus(hotkey@, to as int),
        decreases to,
    {
        if hotkey.get_char(to - 1) == '+' {
            let mut out = hotkey.substring_char(0, to).to_owned();
            out.append(key);
            return Some(out);
        }
        to = to - 1;
    }
    None
}

/// Returns the accelerator text one key is grabbed on, if any.
pub fn chosen(wanted: Option<&str>, hotkey: &str, key: &str) -> (r: Option<String>)
    ensures
        ({
            let w = match wanted {
                Some(w) => Some(w@),
                None => None,
            };
            match r {
                Some(a) => chosen_text(w, hotkey@, key@) == Some(a@),
                None => chosen_text(w, hotkey@, key@) is None,
            }
        }),
{
    match wanted {
        Some(w) => if same(w, NONE) {
            None
        } else {
            Some(w.to_owned())
        },
        None => beside(hotkey, key),
    }
}

} // verus!
