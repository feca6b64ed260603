//! Character classes and the few string operations the protocol and the pill
//! are defined in terms of.
use vstd::prelude::*;
use vstd::string::StringExecFns;

verus! {

/// Unicode `White_Space`, the class `char::is_whitespace` answers for.
pub open spec fn is_white(c: char) -> bool {
    let u = c as u32;
    (0x09 <= u && u <= 0x0D) || u == 0x20 || u == 0x85 || u == 0xA0 || u == 0x1680
        || (0x2000 <= u && u <= 0x200A) || u == 0x2028 || u == 0x2029 || u == 0x202F
        || u == 0x205F || u == 0x3000
}

/// The general category `Cc`, the class `char::is_control` answers for.
pub open spec fn is_control(c: char) -> bool {
    let u = c as u32;
    u <= 0x1F || (0x7F <= u && u <= 0x9F)
}

/// Answers whether one character is white space.
pub fn whitespace(c: char) -> (r: bool)
    ensures
        r == is_white(c),
{
    let u = c as u32;
    (0x09 <= u && u <= 0x0D) || u == 0x20 || u == 0x85 || u == 0xA0 || u == 0x1680 || (0x2000
        <= u && u <= 0x200A) || u == 0x2028 || u == 0x2029 || u == 0x202F || u == 0x205F || u
        == 0x3000
}

/// Answers whether one character is a control character.
pub fn control(c: char) -> (r: bool)
    ensures
        r == is_control(c),
{
    let u = c as u32;
    u <= 0x1F || (0x7F <= u && u <= 0x9F)
}

/// Where the text starts once the white space in front of position `i` is
/// skipped.
pub open spec fn lead_from(s: Seq<char>, i: int) -> int
    decreases s.len() - i,
{
    if 0 <= i < s.len() && is_white(s[i]) {
        lead_from(s, i + 1)
    } else {
        i
    }
}

/// Where the text ends once the white space behind position `j`, and no
/// further back than `low`, is skipped.
pub open spec fn trail_to(s: Seq<char>, low: int, j: int) -> int
    decreases j - low,
{
    if low < j <= s.len() && is_white(s[j - 1]) {
        trail_to(s, low, j - 1)
    } else {
        j
    }
}

/// The text with its leading and trailing white space removed.
pub open spec fn trimmed(s: Seq<char>) -> Seq<char> {
    let a = lead_from(s, 0);
    s.subrange(a, trail_to(s, a, s.len() as int))
}

pub proof fn lemma_lead_bounds(s: Seq<char>, i: int)
    requires
        0 <= i <= s.len(),
    ensures
        i <= lead_from(s, i) <= s.len(),
        forall|k: int| i <= k < lead_from(s, i) ==> is_white(#[trigger] s[k]),
        lead_from(s, i) < s.len() ==> !is_white(s[lead_from(s, i)]),
    decreases s.len() - i,
{
    if i < s.len() && is_white(s[i]) {
        lemma_lead_bounds(s, i + 1);
    }
}

pub proof fn lemma_trail_bounds(s: Seq<char>, low: int, j: int)
    requires
        0 <= low <= j <= s.len(),
    ensures
        low <= trail_to(s, low, j) <= j,
        forall|k: int| trail_to(s, low, j) <= k < j ==> is_white(#[trigger] s[k]),
        trail_to(s, low, j) > low ==> !is_white(s[trail_to(s, low, j) - 1]),
    decreases j - low,
{
    if low < j && is_white(s[j - 1]) {
        lemma_trail_bounds(s, low, j - 1);
    }
}

/// What is left of trimmed text is empty exactly when all of it was white
/// space, and otherwise it starts and ends on something that is not.
pub proof fn lemma_trimmed(s: Seq<char>)
    ensures
        trimmed(s).len() == 0 <==> (forall|k: int| 0 <= k < s.len() ==> is_white(#[trigger] s[k])),
        trimmed(s).len() > 0 ==> !is_white(trimmed(s)[0]) && !is_white(
            trimmed(s)[trimmed(s).len() - 1],
        ),
        trimmed(s).len() <= s.len(),
{
    lemma_lead_bounds(s, 0);
    let a = lead_from(s, 0);
    lemma_trail_bounds(s, a, s.len() as int);
    let b = trail_to(s, a, s.len() as int);
    if trimmed(s).len() == 0 {
        assert forall|k: int| 0 <= k < s.len() implies is_white(#[trigger] s[k]) by {
            if k >= a {
                assert(b == a);
            }
        }
    } else {
        assert(!is_white(s[a]));
    }
}

/// Returns the text with its leading and trailing white space removed.
pub fn trim(s: &str) -> (r: String)
    ensures
        r@ == trimmed(s@),
{
    let n = s.unicode_len();
    let mut a: usize = 0;
    while a < n && whitespace(s.get_char(a))
        invariant
            n == s@.len(),
            a <= n,
            lead_from(s@, a as int) == lead_from(s@, 0),
        decreases n - a,
    {
        a = a + 1;
    }
    let mut b: usize = n;
    while b > a && whitespace(s.get_char(b - 1))
        invariant
            n == s@.len(),
            a <= b <= n,
            a == lead_from(s@, 0),
            trail_to(s@, a as int, b as int) == trail_to(s@, a as int, n as int),
        decreases b - a,
    {
        b = b - 1;
    }
    s.substring_char(a, b).to_owned()
}

/// Appends one character.
///
/// Calls `String::push`; this claims only what its documentation says, that the
/// character is appended to the end.
#[verifier::external_body]
pub(crate) fn push_char(s: &mut String, c: char)
    ensures
        final(s)@ == old(s)@.push(c),
{
    s.push(c);
}

/// The decimal digit for a value below ten.
pub open spec fn digit(d: nat) -> char {
    (48 + d) as char
}

/// The decimal numeral for a natural number, as `Display` writes it.
pub open spec fn decimal(n: nat) -> Seq<char>
    decreases n,
{
    if n < 10 {
        seq![digit(n)]
    } else {
        decimal(n / 10).push(digit(n % 10))
    }
}

/// Appends the decimal numeral of `n`.
pub fn push_decimal(s: &mut String, n: u64)
    ensures
        final(s)@ == old(s)@ + decimal(n as nat),
    decreases n,
{
    if n >= 10 {
        push_decimal(s, n / 10);
    }
    let d = (n % 10) as u8;
    let c = (48u8 + d) as char;
    push_char(s, c);
    proof {
        assert(c == digit((n % 10) as nat));
    }
}

/// Answers whether one character occurs in the text.
pub fn has_char(s: &str, c: char) -> (r: bool)
    ensures
        r == s@.contains(c),
{
    let n = s.unicode_len();
    let mut i: usize = 0;
    while i < n
        invariant
            n == s@.len(),
            i <= n,
            forall|k: int| 0 <= k < i ==> s@[k] != c,
        decreases n - i,
    {
        if s.get_char(i) == c {
            return true;
        }
        i = i + 1;
    }
    false
}

/// Joins two texts into a new one.
pub fn joined(a: &str, b: &str) -> (r: String)
    ensures
        r@ == a@ + b@,
{
    let mut out = a.to_owned();
    out.append(b);
    out
}

} // verus!

verus! {

/// Lexicographic order on texts, character by character, as `String`'s `Ord`
/// orders them (UTF-8 byte order is code point order).
pub open spec fn text_less(a: Seq<char>, b: Seq<char>) -> bool
    decreases a.len(),
{
    if a.len() == 0 {
        b.len() > 0
    } else if b.len() == 0 {
        false
    } else if a[0] != b[0] {
        (a[0] as int) < (b[0] as int)
    } else {
        text_less(a.drop_first(), b.drop_first())
    }
}

/// No text comes before itself.
pub proof fn lemma_text_less_irreflexive(a: Seq<char>)
    ensures
        !text_less(a, a),
    decreases a.len(),
{
    if a.len() > 0 {
        lemma_text_less_irreflexive(a.drop_first());
    }
}

/// Of two different texts, one comes first.
pub proof fn lemma_text_less_total(a: Seq<char>, b: Seq<char>)
    ensures
        a != b ==> text_less(a, b) || text_less(b, a),
    decreases a.len(),
{
    if a.len() > 0 && b.len() > 0 && a[0] == b[0] {
        lemma_text_less_total(a.drop_first(), b.drop_first());
        if a.drop_first() == b.drop_first() {
            assert(a =~= seq![a[0]] + a.drop_first());
            assert(b =~= seq![b[0]] + b.drop_first());
        }
    } else if a.len() == 0 && b.len() == 0 {
        assert(a =~= b);
    } else if a.len() > 0 && b.len() > 0 {
        assert((a[0] as int) != (b[0] as int));
    }
}

/// The order is transitive.
pub proof fn lemma_text_less_transitive(a: Seq<char>, b: Seq<char>, c: Seq<char>)
    requires
        text_less(a, b),
        text_less(b, c),
    ensures
        text_less(a, c),
    decreases a.len(),
{
    if a.len() > 0 && b.len() > 0 && c.len() > 0 && a[0] == b[0] && b[0] == c[0] {
        lemma_text_less_transitive(a.drop_first(), b.drop_first(), c.drop_first());
    }
}

/// Answers whether `a` comes before `b`.
pub fn precedes(a: &str, b: &str) -> (r: bool)
    ensures
        r == text_less(a@, b@),
{
    let n = a.unicode_len();
    let m = b.unicode_len();
    let mut i: usize = 0;
    proof {
        assert(a@.skip(0) =~= a@);
        assert(b@.skip(0) =~= b@);
    }
    while i < n && i < m
        invariant
            n == a@.len(),
            m == b@.len(),
            i <= n,
            i <= m,
            text_less(a@, b@) == text_less(a@.skip(i as int), b@.skip(i as int)),
        decreases n - i,
    {
        let x = a.get_char(i);
        let y = b.get_char(i);
        proof {
            assert(a@.skip(i as int)[0] == x);
            assert(b@.skip(i as int)[0] == y);
            assert(a@.skip(i as int).drop_first() =~= a@.skip(i + 1));
            assert(b@.skip(i as int).drop_first() =~= b@.skip(i + 1));
        }
        if x != y {
            return (x as u32) < (y as u32);
        }
        i = i + 1;
    }
    proof {
        assert(a@.skip(i as int).len() == n - i);
        assert(b@.skip(i as int).len() == m - i);
    }
    i == n && i < m
}

/// Answers whether two texts are the same.
pub fn same(a: &str, b: &str) -> (r: bool)
    ensures
        r == (a@ == b@),
{
    let n = a.unicode_len();
    if n != b.unicode_len() {
        return false;
    }
    let mut i: usize = 0;
    while i < n
        invariant
            n == a@.len(),
            n == b@.len(),
            i <= n,
            forall|k: int| 0 <= k < i ==> a@[k] == b@[k],
        decreases n - i,
    {
        if a.get_char(i) != b.get_char(i) {
            return false;
        }
        i = i + 1;
    }
    proof {
        assert(a@ =~= b@);
    }
    true
}

/// Whether a text begins with another.
pub open spec fn begins_with(s: Seq<char>, prefix: Seq<char>) -> bool {
    prefix.len() <= s.len() && s.subrange(0, prefix.len() as int) == prefix
}

/// Answers whether a text begins with another.
pub fn begins(s: &str, prefix: &str) -> (r: bool)
    ensures
        r == begins_with(s@, prefix@),
{
    let n = prefix.unicode_len();
    let m = s.unicode_len();
    if m < n {
        return false;
    }
    same(s.substring_char(0, n), prefix)
}

/// A relative path below a directory, with one separator between the two,
/// as a path join writes it when the directory is not empty.
pub open spec fn joined_path(base: Seq<char>, rel: Seq<char>) -> Seq<char> {
    if base.len() > 0 && base.last() == '/' {
        base + rel
    } else {
        base + "/"@ + rel
    }
}

/// Joins a relative path below a directory.
pub fn join_path(base: &str, rel: &str) -> (r: String)
    ensures
        r@ == joined_path(base@, rel@),
{
    let n = base.unicode_len();
    let mut out = base.to_owned();
    if n > 0 && base.get_char(n - 1) == '/' {
        out.append(rel);
    } else {
        out.append("/");
        out.append(rel);
    }
    proof {
        reveal_strlit("/");
    }
    out
}

/// A path that starts at the root of the file system.
pub open spec fn absolute_path(s: Seq<char>) -> bool {
    s.len() > 0 && s[0] == '/'
}

/// Answers whether a path starts at the root of the file system.
pub fn is_absolute(s: &str) -> (r: bool)
    ensures
        r == absolute_path(s@),
{
    s.unicode_len() > 0 && s.get_char(0) == '/'
}

} // verus!

verus! {

/// The length of a text in UTF-8 bytes.
pub open spec fn byte_len(s: Seq<char>) -> nat {
    vstd::utf8::encode_utf8(s).len()
}

/// Returns the length of a text in UTF-8 bytes.
pub fn byte_count(s: &str) -> (r: usize)
    ensures
        r == byte_len(s@),
{
    let bytes = s.as_bytes();
    proof {
        vstd::slice::axiom_spec_len(bytes);
    }
    bytes.len()
}

/// The encoding of two texts one after the other is the two encodings one
/// after the other.
pub proof fn lemma_byte_len_concat(a: Seq<char>, b: Seq<char>)
    ensures
        byte_len(a + b) == byte_len(a) + byte_len(b),
    decreases a.len(),
{
    if a.len() > 0 {
        assert((a + b).drop_first() =~= a.drop_first() + b);
        assert((a + b)[0] == a[0]);
        lemma_byte_len_concat(a.drop_first(), b);
    } else {
        assert(a + b =~= b);
    }
}

/// A prefix of a text takes no more bytes than the text.
pub proof fn lemma_byte_len_prefix(s: Seq<char>, j: int)
    requires
        0 <= j <= s.len(),
    ensures
        byte_len(s.subrange(0, j)) <= byte_len(s),
{
    assert(s.subrange(0, j) + s.subrange(j, s.len() as int) =~= s);
    lemma_byte_len_concat(s.subrange(0, j), s.subrange(j, s.len() as int));
}

/// One character takes at most four bytes.
pub proof fn lemma_byte_len_one(c: char)
    ensures
        byte_len(seq![c]) <= 4,
{
    assert(seq![c].drop_first() =~= Seq::<char>::empty());
    assert(vstd::utf8::encode_utf8(Seq::<char>::empty()).len() == 0);
    assert(vstd::utf8::encode_scalar(c as u32).len() <= 4);
    assert(vstd::utf8::encode_utf8(seq![c]) == vstd::utf8::encode_scalar(seq![c][0] as u32)
        + vstd::utf8::encode_utf8(seq![c].drop_first()));
}

} // verus!
