//! What the speaker is handed: one paragraph, bounded the way the synthesiser
//! reads it.
use vstd::prelude::*;

use crate::text::{byte_count, byte_len, control, is_control, is_white, push_char, trail_to, trim, trimmed, whitespace};

verus! {

/// Longest paragraph handed to the synthesiser, in UTF-8 bytes. This is where
/// a long answer is shortened rather than dropped.
pub const MAX_SPOKEN_BYTES: usize = 1_000;

/// The text with every control character taken out.
pub open spec fn without_controls(s: Seq<char>) -> Seq<char>
    decreases s.len(),
{
    if s.len() == 0 {
        s
    } else if is_control(s.last()) {
        without_controls(s.drop_last())
    } else {
        without_controls(s.drop_last()).push(s.last())
    }
}

/// The text with its trailing white space removed.
pub open spec fn trimmed_end(s: Seq<char>) -> Seq<char> {
    s.subrange(0, trail_to(s, 0, s.len() as int))
}

/// The longest prefix of at most `k` characters whose encoding fits in `max`
/// bytes, as a character count.
pub open spec fn fitting(s: Seq<char>, k: int, max: nat) -> int
    decreases k,
{
    if k <= 0 {
        0
    } else if byte_len(s.subrange(0, k)) <= max {
        k
    } else {
        fitting(s, k - 1, max)
    }
}

/// One paragraph as the synthesiser takes it: no control characters, no white
/// space at either end, and cut on a character boundary to at most
/// [`MAX_SPOKEN_BYTES`] bytes, with the white space the cut exposes removed.
pub open spec fn spoken(s: Seq<char>) -> Seq<char> {
    let t = trimmed(without_controls(s));
    if byte_len(t) <= MAX_SPOKEN_BYTES {
        t
    } else {
        trimmed_end(t.subrange(0, fitting(t, t.len() as int, MAX_SPOKEN_BYTES as nat)))
    }
}

/// Taking the control characters out leaves none, and adds nothing.
pub proof fn lemma_without_controls(s: Seq<char>)
    ensures
        without_controls(s).len() <= s.len(),
        forall|i: int| 0 <= i < without_controls(s).len() ==> !is_control(#[trigger] without_controls(s)[i]),
    decreases s.len(),
{
    if s.len() > 0 {
        lemma_without_controls(s.drop_last());
    }
}

/// The cut is a prefix that fits, and it keeps the first character whenever
/// that one fits alone.
pub proof fn lemma_fitting(s: Seq<char>, k: int, max: nat)
    requires
        0 <= k <= s.len(),
    ensures
        0 <= fitting(s, k, max) <= k,
        fitting(s, k, max) > 0 ==> byte_len(s.subrange(0, fitting(s, k, max))) <= max,
        k >= 1 && byte_len(s.subrange(0, 1)) <= max ==> fitting(s, k, max) >= 1,
    decreases k,
{
    if k > 0 && byte_len(s.subrange(0, k)) > max {
        lemma_fitting(s, k - 1, max);
    }
}

proof fn lemma_byte_len_at_least_len(s: Seq<char>)
    ensures
        byte_len(s) >= s.len(),
    decreases s.len(),
{
    if s.len() > 0 {
        lemma_byte_len_at_least_len(s.drop_first());
        assert(vstd::utf8::encode_scalar(s[0] as u32).len() >= 1);
    }
}

/// Skipping the prefixes that cannot fit because they have more characters
/// than the bound has bytes changes nothing.
proof fn lemma_fitting_skips_long_prefixes(s: Seq<char>, k: int, max: nat)
    requires
        max <= k <= s.len(),
    ensures
        fitting(s, k, max) == fitting(s, max as int, max),
    decreases k,
{
    if k > max {
        lemma_byte_len_at_least_len(s.subrange(0, k));
        lemma_fitting_skips_long_prefixes(s, k - 1, max);
    }
}

fn without_control_characters(s: &str) -> (r: String)
    ensures
        r@ == without_controls(s@),
{
    let mut out = String::new();
    let n = s.unicode_len();
    let mut i: usize = 0;
    while i < n
        invariant
            n == s@.len(),
            i <= n,
            out@ == without_controls(s@.subrange(0, i as int)),
        decreases n - i,
    {
        let c = s.get_char(i);
        proof {
            assert(s@.subrange(0, i + 1).drop_last() =~= s@.subrange(0, i as int));
            assert(s@.subrange(0, i + 1).last() == c);
        }
        if !control(c) {
            push_char(&mut out, c);
        }
        i = i + 1;
    }
    proof {
        assert(s@.subrange(0, n as int) =~= s@);
    }
    out
}

fn trim_end(s: &str) -> (r: String)
    ensures
        r@ == trimmed_end(s@),
{
    let n = s.unicode_len();
    let mut b: usize = n;
    while b > 0 && whitespace(s.get_char(b - 1))
        invariant
            n == s@.len(),
            b <= n,
            trail_to(s@, 0, b as int) == trail_to(s@, 0, n as int),
        decreases b,
    {
        b = b - 1;
    }
    s.substring_char(0, b).to_owned()
}

/// Trims one paragraph to what the synthesiser accepts, on a character
/// boundary, and strips what it refuses outright.
pub fn bounded(text: String) -> (r: String)
    ensures
        r@ == spoken(text@),
{
    let kept = without_control_characters(text.as_str());
    let t = trim(kept.as_str());
    if byte_count(t.as_str()) <= MAX_SPOKEN_BYTES {
        return t;
    }
    let n = t.as_str().unicode_len();
    let mut k: usize = if n < MAX_SPOKEN_BYTES {
        n
    } else {
        MAX_SPOKEN_BYTES
    };
    proof {
        if n >= MAX_SPOKEN_BYTES {
            lemma_fitting_skips_long_prefixes(t@, n as int, MAX_SPOKEN_BYTES as nat);
        }
    }
    while k > 0 && byte_count(t.as_str().substring_char(0, k)) > MAX_SPOKEN_BYTES
        invariant
            n == t@.len(),
            k <= n,
            fitting(t@, k as int, MAX_SPOKEN_BYTES as nat) == fitting(t@, n as int, MAX_SPOKEN_BYTES as nat),
        decreases k,
    {
        k = k - 1;
    }
    trim_end(t.as_str().substring_char(0, k))
}

} // verus!
