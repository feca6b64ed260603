//! The small window a panel borrows when it needs words.
//!
//! A widget window never holds the keyboard, so a panel that wants a task
//! written, a weight logged or a note kept borrows this field instead: one
//! form, up only while there is a question on it. The panel says what to ask
//! and what to do with the answer; this holds the words and hands the finished
//! answers back to the panel's own backend. Nothing typed here ever reaches
//! the conversation.
use vstd::prelude::*;
use vstd::string::StringExecFns;
use vstd::pervasive::VecAdditionalExecFns;

use crate::text::{is_white, push_char, same, trim, trimmed, whitespace};

verus! {

/// Stable window label.
pub const LABEL: &'static str = "form";

/// The question, pushed when one is asked.
pub const ASK_EVENT: &'static str = "scufris://ask";

/// Box width in logical pixels.
pub const WIDTH: u32 = 420;

/// The tallest box that will be built, in logical pixels.
pub const CEILING: u32 = 560;

/// Room above the first line and below the last, in logical pixels.
pub const PAD: u32 = 14;

/// The title line, and the gap under it.
pub const CROWN: u32 = 15;
pub const CROWN_GAP: u32 = 12;

/// One field's label line, and the gap under it.
pub const NAME: u32 = 14;
pub const NAME_GAP: u32 = 4;

/// One line inside a field, and the padding and border around them all.
pub const LINE: u32 = 20;
pub const BOX: u32 = 14;

/// The gap between two fields.
pub const FIELD_GAP: u32 = 10;

/// The keys line at the foot, and the gap over it.
pub const KEYS_GAP: u32 = 10;
pub const KEYS: u32 = 14;

/// The most fields one ask may carry.
pub const FIELDS: usize = 4;

/// The most lines one field may be.
pub const LINES: u32 = 12;

/// The most characters a title or a label may carry onto the box.
pub const WORDS: usize = 64;

/// One field on the form, as the page draws it.
#[derive(Debug, Clone, PartialEq, Eq)]
pub struct Field {
    /// The key the answer arrives under.
    pub name: String,
    /// What is printed over the field.
    pub label: String,
    /// What the field starts with.
    pub value: String,
    /// How many lines the field is.
    pub lines: u32,
    /// Grey words in an empty field.
    pub hint: String,
}

/// One field, as texts.
pub struct FieldView {
    pub name: Seq<char>,
    pub label: Seq<char>,
    pub value: Seq<char>,
    pub lines: u32,
    pub hint: Seq<char>,
}

impl View for Field {
    type V = FieldView;

    open spec fn view(&self) -> FieldView {
        FieldView {
            name: self.name@,
            label: self.label@,
            value: self.value@,
            lines: self.lines,
            hint: self.hint@,
        }
    }
}

/// One value of the action a widget sent: a text, or any other value, held
/// as the JSON it was written in. The form only ever writes texts into an
/// action, and carries every other value through as it came.
#[derive(Debug, Clone, PartialEq, Eq)]
pub enum ActionValue {
    Text(String),
    Other(String),
}

/// One value of an action, as texts.
pub enum ActionView {
    Text(Seq<char>),
    Other(Seq<char>),
}

impl View for ActionValue {
    type V = ActionView;

    open spec fn view(&self) -> ActionView {
        match self {
            ActionValue::Text(t) => ActionView::Text(t@),
            ActionValue::Other(j) => ActionView::Other(j@),
        }
    }
}

/// The entries of an action, key by key, as texts.
pub open spec fn action_view(action: Seq<(String, ActionValue)>) -> Seq<(Seq<char>, ActionView)> {
    action.map_values(|e: (String, ActionValue)| (e.0@, e.1@))
}

/// One question, as a widget asked it: what the box is titled, the fields in
/// the order they are asked, and the action the answers are laid into. The
/// action is never shown on the box: what the answers mean is between the
/// widget and its backend.
#[derive(Debug, Clone, PartialEq, Eq)]
pub struct Ask {
    pub title: String,
    pub fields: Vec<Field>,
    pub action: Vec<(String, ActionValue)>,
}

/// The fields of an ask, as texts.
pub open spec fn fields_view(fields: Seq<Field>) -> Seq<FieldView> {
    fields.map_values(|f: Field| f@)
}

/// One question, as texts.
pub struct AskView {
    pub title: Seq<char>,
    pub fields: Seq<FieldView>,
    pub action: Seq<(Seq<char>, ActionView)>,
}

impl View for Ask {
    type V = AskView;

    open spec fn view(&self) -> AskView {
        AskView { title: self.title@, fields: fields_view(self.fields@), action: action_view(self.action@) }
    }
}

/// What one field of an ask says, as far as the form reads it: whether it is
/// an object, and each of its texts when one is there and is a text. `lines`
/// is there when it is a whole number that is not negative.
#[derive(Debug, Clone)]
pub struct FieldWords {
    pub object: bool,
    pub name: Option<String>,
    pub label: Option<String>,
    pub lines: Option<u64>,
    pub value: Option<String>,
    pub hint: Option<String>,
}

/// What one ask says, as far as the form reads it: whether it is an object,
/// the entries of its action when that is an object, its title when that is a
/// text, and its fields when they are a list.
#[derive(Debug, Clone)]
pub struct AskWords {
    pub object: bool,
    pub action: Option<Vec<(String, ActionValue)>>,
    pub title: Option<String>,
    pub fields: Option<Vec<FieldWords>>,
}

/// The first [`WORDS`] characters of a printed word.
pub open spec fn clipped(s: Seq<char>) -> Seq<char> {
    if s.len() <= WORDS {
        s
    } else {
        s.subrange(0, WORDS as int)
    }
}

/// Cuts one printed word down to what the box has room for.
pub fn clip(text: &str) -> (r: String)
    ensures
        r@ == clipped(text@),
{
    let n = text.unicode_len();
    if n <= WORDS {
        text.to_owned()
    } else {
        text.substring_char(0, WORDS).to_owned()
    }
}

/// How many lines a field asked for is: one unless it says, and never more
/// than [`LINES`].
pub open spec fn line_count(lines: Option<u64>) -> u32 {
    match lines {
        Some(n) => if n < 1 {
            1u32
        } else if n > LINES {
            LINES
        } else {
            n as u32
        },
        None => 1u32,
    }
}

/// One field read, or why it is not one.
pub open spec fn field_of(w: FieldWords) -> Result<FieldView, Seq<char>> {
    if !w.object {
        Err("a field is an object"@)
    } else if w.name is None {
        Err("a field carries a name"@)
    } else if w.name.unwrap()@.len() == 0 {
        Err("a field's name is what its answer is called"@)
    } else {
        Ok(FieldView {
            name: w.name.unwrap()@,
            label: match w.label {
                Some(l) => clipped(l@),
                None => w.name.unwrap()@,
            },
            value: match w.value {
                Some(v) => v@,
                None => Seq::empty(),
            },
            lines: line_count(w.lines),
            hint: match w.hint {
                Some(h) => clipped(h@),
                None => Seq::empty(),
            },
        })
    }
}

/// The fields read in order, or the first reason one is not a field.
pub open spec fn fields_of(ws: Seq<FieldWords>) -> Result<Seq<FieldView>, Seq<char>>
    decreases ws.len(),
{
    if ws.len() == 0 {
        Ok(Seq::empty())
    } else {
        match fields_of(ws.drop_last()) {
            Err(e) => Err(e),
            Ok(fs) => match field_of(ws.last()) {
                Err(e) => Err(e),
                Ok(f) => Ok(fs.push(f)),
            },
        }
    }
}

/// One ask read, or why it is not one. Every bound is here rather than on the
/// page, because a widget can come from outside this build.
pub open spec fn ask_of(w: AskWords) -> Result<AskView, Seq<char>> {
    if !w.object {
        Err("an ask is an object"@)
    } else if w.action is None {
        Err("an ask carries an action object"@)
    } else if w.title is None {
        Err("an ask carries a title"@)
    } else if w.fields is None {
        Err("an ask carries fields"@)
    } else if w.fields.unwrap()@.len() == 0 {
        Err("an ask with no fields asks nothing"@)
    } else if w.fields.unwrap()@.len() > FIELDS {
        Err("an ask carries at most 4 fields"@)
    } else {
        match fields_of(w.fields.unwrap()@) {
            Err(e) => Err(e),
            Ok(fields) => Ok(
                AskView { title: clipped(w.title.unwrap()@), fields, action: action_view(w.action.unwrap()@) },
            ),
        }
    }
}

fn read_field(w: &FieldWords) -> (r: Result<Field, String>)
    ensures
        match r {
            Ok(f) => field_of(*w) == Ok::<FieldView, Seq<char>>(f@),
            Err(e) => field_of(*w) == Err::<FieldView, Seq<char>>(e@),
        },
{
    if !w.object {
        return Err("a field is an object".to_owned());
    }
    let name = match &w.name {
        Some(name) => name,
        None => return Err("a field carries a name".to_owned()),
    };
    if name.as_str().is_empty() {
        return Err("a field's name is what its answer is called".to_owned());
    }
    let label = match &w.label {
        Some(label) => clip(label.as_str()),
        None => name.clone(),
    };
    let lines: u32 = match w.lines {
        Some(n) => if n < 1 {
            1
        } else if n > LINES as u64 {
            LINES
        } else {
            n as u32
        },
        None => 1,
    };
    let value = match &w.value {
        Some(value) => value.clone(),
        None => String::new(),
    };
    let hint = match &w.hint {
        Some(hint) => clip(hint.as_str()),
        None => String::new(),
    };
    Ok(Field { name: name.clone(), label, value, lines, hint })
}

impl Ask {
    /// Reads one ask, or says why it is not one.
    pub fn parse(words: &AskWords) -> (r: Result<Ask, String>)
        ensures
            match r {
                Ok(a) => ask_of(*words) == Ok::<AskView, Seq<char>>(a@),
                Err(e) => ask_of(*words) == Err::<AskView, Seq<char>>(e@),
            },
    {
        if !words.object {
            return Err("an ask is an object".to_owned());
        }
        let action = match &words.action {
            Some(action) => copy_action(action),
            None => return Err("an ask carries an action object".to_owned()),
        };
        let title = match &words.title {
            Some(title) => clip(title.as_str()),
            None => return Err("an ask carries a title".to_owned()),
        };
        let asked = match &words.fields {
            Some(fields) => fields,
            None => return Err("an ask carries fields".to_owned()),
        };
        if asked.len() == 0 {
            return Err("an ask with no fields asks nothing".to_owned());
        }
        if asked.len() > FIELDS {
            return Err("an ask carries at most 4 fields".to_owned());
        }
        let mut fields: Vec<Field> = Vec::new();
        let mut i: usize = 0;
        proof {
            assert(asked@.subrange(0, 0) =~= Seq::<FieldWords>::empty());
            assert(fields_view(fields@) =~= Seq::<FieldView>::empty());
        }
        while i < asked.len()
            invariant
                ask_of(*words) == match fields_of(asked@) {
                    Err(e) => Err(e),
                    Ok(fields) => Ok::<AskView, Seq<char>>(AskView { title: title@, fields, action: action_view(action@) }),
                },
                i <= asked@.len(),
                fields_of(asked@.subrange(0, i as int)) == Ok::<Seq<FieldView>, Seq<char>>(fields_view(fields@)),
            decreases asked@.len() - i,
        {
            proof {
                let upto = asked@.subrange(0, i + 1);
                assert(upto.drop_last() =~= asked@.subrange(0, i as int));
                assert(upto.last() == asked@[i as int]);
            }
            match read_field(&asked[i]) {
                Ok(field) => {
                    let ghost before = fields@;
                    fields.push(field);
                    proof {
                        assert(fields_view(fields@) =~= fields_view(before).push(field@));
                    }
                },
                Err(e) => {
                    proof {
                        let upto = asked@.subrange(0, i + 1);
                        assert(field_of(upto.last()) == Err::<FieldView, Seq<char>>(e@));
                        assert(fields_of(upto) == Err::<Seq<FieldView>, Seq<char>>(e@));
                        lemma_fields_of_fails(asked@, i as int + 1);
                        assert(fields_of(asked@) == Err::<Seq<FieldView>, Seq<char>>(e@));
                    }
                    return Err(e);
                },
            }
            i = i + 1;
        }
        proof {
            assert(asked@.subrange(0, asked@.len() as int) =~= asked@);
        }
        Ok(Ask { title, fields, action })
    }
}

/// Once a prefix of the fields fails to read, the whole list fails the same
/// way.
proof fn lemma_fields_of_fails(ws: Seq<FieldWords>, k: int)
    requires
        0 <= k <= ws.len(),
        fields_of(ws.subrange(0, k)) is Err,
    ensures
        fields_of(ws) == fields_of(ws.subrange(0, k)),
    decreases ws.len() - k,
{
    if k < ws.len() {
        let upto = ws.subrange(0, k + 1);
        assert(upto.drop_last() =~= ws.subrange(0, k));
        lemma_fields_of_fails(ws, k + 1);
    } else {
        assert(ws.subrange(0, k) =~= ws);
    }
}

/// The height of the fields of a box, in logical pixels, before the ceiling.
pub open spec fn fields_height(fields: Seq<FieldView>) -> int
    decreases fields.len(),
{
    if fields.len() == 0 {
        0
    } else {
        fields_height(fields.drop_last()) + (if fields.len() > 1 {
            FIELD_GAP as int
        } else {
            0
        }) + NAME + NAME_GAP + fields.last().lines * LINE + BOX
    }
}

/// The height of the box that asks one question, in logical pixels: the
/// frame, the fields, and never more than [`CEILING`].
pub open spec fn height_of(a: AskView) -> int {
    let total = PAD * 2 + CROWN + CROWN_GAP + KEYS_GAP + KEYS + fields_height(a.fields);
    if total < CEILING {
        total
    } else {
        CEILING as int
    }
}

proof fn lemma_fields_height_grows(fields: Seq<FieldView>)
    ensures
        fields_height(fields) >= 0,
    decreases fields.len(),
{
    if fields.len() > 0 {
        lemma_fields_height_grows(fields.drop_last());
    }
}

impl Ask {
    /// The height of the box that asks this, in logical pixels.
    pub fn height(&self) -> (r: u32)
        ensures
            r == height_of(self@),
    {
        let frame: u64 = (PAD * 2 + CROWN + CROWN_GAP + KEYS_GAP + KEYS) as u64;
        let mut total: u64 = frame;
        let n = self.fields.len();
        let mut i: usize = 0;
        while i < n
            invariant
                n == self.fields@.len(),
                i <= n,
                frame == PAD * 2 + CROWN + CROWN_GAP + KEYS_GAP + KEYS,
                total <= CEILING,
                total == if frame + fields_height(fields_view(self.fields@.subrange(0, i as int))) < CEILING {
                    frame + fields_height(fields_view(self.fields@.subrange(0, i as int)))
                } else {
                    CEILING as int
                },
            decreases n - i,
        {
            let lines = self.fields[i].lines as u64;
            let gap: u64 = if i > 0 {
                FIELD_GAP as u64
            } else {
                0
            };
            assert(lines * 20 <= 0xFFFF_FFFFu64 * 20) by (nonlinear_arith)
                requires
                    lines <= 0xFFFF_FFFFu64,
            ;
            let piece: u64 = gap + NAME as u64 + NAME_GAP as u64 + lines * LINE as u64 + BOX as u64;
            let ghost pre = fields_view(self.fields@.subrange(0, i as int));
            proof {
                let upto = fields_view(self.fields@.subrange(0, i + 1));
                assert(upto.drop_last() =~= pre);
                assert(upto.last() == self.fields@[i as int]@);
                assert(upto.len() == i + 1);
                lemma_fields_height_grows(pre);
                assert(fields_height(upto) == fields_height(pre) + piece);
            }
            total = total + piece;
            if total > CEILING as u64 {
                total = CEILING as u64;
            }
            i = i + 1;
        }
        proof {
            assert(self.fields@.subrange(0, n as int) =~= self.fields@);
        }
        total as u32
    }
}

/// White space collapsed: each run of it becomes one space.
pub open spec fn collapsed(s: Seq<char>) -> Seq<char>
    decreases s.len(),
{
    if s.len() == 0 {
        s
    } else {
        let r = collapsed(s.drop_last());
        if is_white(s.last()) {
            if r.len() > 0 && r.last() == ' ' {
                r
            } else {
                r.push(' ')
            }
        } else {
            r.push(s.last())
        }
    }
}

/// One answer tidied: trimmed when the field was more than one line, and its
/// words joined by single spaces when it was one line.
pub open spec fn tidied(said: Seq<char>, lines: u32) -> Seq<char> {
    if lines > 1 {
        trimmed(said)
    } else {
        trimmed(collapsed(said))
    }
}

fn collapse(s: &str) -> (r: String)
    ensures
        r@ == collapsed(s@),
{
    let mut out = String::new();
    let n = s.unicode_len();
    let mut i: usize = 0;
    while i < n
        invariant
            n == s@.len(),
            i <= n,
            out@ == collapsed(s@.subrange(0, i as int)),
        decreases n - i,
    {
        let c = s.get_char(i);
        proof {
            let upto = s@.subrange(0, i + 1);
            assert(upto.drop_last() =~= s@.subrange(0, i as int));
            assert(upto.last() == c);
        }
        if whitespace(c) {
            let m = out.as_str().unicode_len();
            if !(m > 0 && out.as_str().get_char(m - 1) == ' ') {
                push_char(&mut out, ' ');
            }
        } else {
            push_char(&mut out, c);
        }
        i = i + 1;
    }
    proof {
        assert(s@.subrange(0, n as int) =~= s@);
    }
    out
}

/// Trims one answer, and flattens it when the field was one line: a one-line
/// field is one line whatever is pasted into it.
pub fn tidy(said: &str, lines: u32) -> (r: String)
    ensures
        r@ == tidied(said@, lines),
{
    if lines > 1 {
        return trim(said);
    }
    let flat = collapse(said);
    trim(flat.as_str())
}

/// What a page answered for one field: the first answer under its name, or
/// nothing.
pub open spec fn answer_for(answers: Seq<(String, String)>, name: Seq<char>) -> Seq<char>
    decreases answers.len(),
{
    if answers.len() == 0 {
        Seq::empty()
    } else if answers[0].0@ == name {
        answers[0].1@
    } else {
        answer_for(answers.drop_first(), name)
    }
}

fn find_answer(answers: &Vec<(String, String)>, name: &str) -> (r: String)
    ensures
        r@ == answer_for(answers@, name@),
{
    let n = answers.len();
    let mut i: usize = 0;
    proof {
        assert(answers@.skip(0) =~= answers@);
    }
    while i < n
        invariant
            n == answers@.len(),
            i <= n,
            answer_for(answers@, name@) == answer_for(answers@.skip(i as int), name@),
        decreases n - i,
    {
        proof {
            assert(answers@.skip(i as int).drop_first() =~= answers@.skip(i + 1));
            assert(answers@.skip(i as int)[0] == answers@[i as int]);
        }
        if same(answers[i].0.as_str(), name) {
            return answers[i].1.clone();
        }
        i = i + 1;
    }
    String::new()
}

/// Where one key stands in an action: its last entry, or -1 where the action
/// has none.
pub open spec fn slot_of(action: Seq<(Seq<char>, ActionView)>, key: Seq<char>) -> int
    decreases action.len(),
{
    if action.len() == 0 {
        -1
    } else if action.last().0 == key {
        action.len() - 1
    } else {
        slot_of(action.drop_last(), key)
    }
}

/// One text laid into an action under one key: it takes the place of what
/// the key held, or is added when the action had no such key. Every other
/// entry stays as it was.
pub open spec fn laid(action: Seq<(Seq<char>, ActionView)>, key: Seq<char>, text: Seq<char>) -> Seq<
    (Seq<char>, ActionView),
> {
    let at = slot_of(action, key);
    if at >= 0 {
        action.update(at, (key, ActionView::Text(text)))
    } else {
        action.push((key, ActionView::Text(text)))
    }
}

/// The action with the answers laid into it: for each field asked, in the
/// order asked, the answer given under its name, tidied, under that name. A
/// key the page made up is laid nowhere, so it cannot name an argument the
/// backend reads; a field the person left empty is laid in as nothing.
pub open spec fn filled(
    action: Seq<(Seq<char>, ActionView)>,
    fields: Seq<FieldView>,
    answers: Seq<(String, String)>,
) -> Seq<(Seq<char>, ActionView)>
    decreases fields.len(),
{
    if fields.len() == 0 {
        action
    } else {
        let f = fields.last();
        laid(filled(action, fields.drop_last(), answers), f.name, tidied(answer_for(answers, f.name), f.lines))
    }
}

/// Returns a copy of an action.
pub fn copy_action(action: &Vec<(String, ActionValue)>) -> (r: Vec<(String, ActionValue)>)
    ensures
        action_view(r@) == action_view(action@),
{
    let mut out: Vec<(String, ActionValue)> = Vec::new();
    let mut i: usize = 0;
    while i < action.len()
        invariant
            i <= action@.len(),
            action_view(out@) == action_view(action@.subrange(0, i as int)),
        decreases action@.len() - i,
    {
        let entry = &action[i];
        let value = match &entry.1 {
            ActionValue::Text(t) => ActionValue::Text(t.clone()),
            ActionValue::Other(j) => ActionValue::Other(j.clone()),
        };
        let copy = (entry.0.clone(), value);
        let ghost before = out@;
        out.push(copy);
        proof {
            assert(action_view(out@) =~= action_view(before).push((copy.0@, copy.1@)));
            assert(action_view(action@.subrange(0, i + 1)) =~= action_view(action@.subrange(0, i as int)).push(
                (entry.0@, entry.1@),
            ));
        }
        i = i + 1;
    }
    proof {
        assert(action@.subrange(0, action@.len() as int) =~= action@);
    }
    out
}

/// Lays one text into an action under one key.
fn lay(action: &mut Vec<(String, ActionValue)>, key: String, text: String)
    ensures
        action_view(final(action)@) == laid(action_view(old(action)@), key@, text@),
{
    let ghost whole = action_view(action@);
    let n = action.len();
    let mut found: Option<usize> = None;
    let mut i: usize = 0;
    while i < n
        invariant
            n == action@.len(),
            whole == action_view(action@),
            i <= n,
            match found {
                Some(k) => k < i && slot_of(whole.subrange(0, i as int), key@) == k,
                None => slot_of(whole.subrange(0, i as int), key@) == -1,
            },
        decreases n - i,
    {
        proof {
            let upto = whole.subrange(0, i + 1);
            assert(upto.drop_last() =~= whole.subrange(0, i as int));
            assert(upto.last() == whole[i as int]);
        }
        if same(action[i].0.as_str(), key.as_str()) {
            found = Some(i);
        }
        i = i + 1;
    }
    proof {
        assert(whole.subrange(0, n as int) =~= whole);
    }
    let ghost entry = (key@, ActionView::Text(text@));
    match found {
        Some(k) => {
            action.set(k, (key, ActionValue::Text(text)));
            proof {
                assert(action_view(action@) =~= whole.update(k as int, entry));
            }
        },
        None => {
            action.push((key, ActionValue::Text(text)));
            proof {
                assert(action_view(action@) =~= whole.push(entry));
            }
        },
    }
}

impl Ask {
    /// Lays the answers into the action the widget sent, and nothing else:
    /// only the fields that were asked for.
    pub fn fill(&self, answers: &Vec<(String, String)>) -> (r: Vec<(String, ActionValue)>)
        ensures
            action_view(r@) == filled(self@.action, self@.fields, answers@),
    {
        let mut out = copy_action(&self.action);
        let n = self.fields.len();
        let mut i: usize = 0;
        proof {
            assert(fields_view(self.fields@.subrange(0, 0)) =~= Seq::<FieldView>::empty());
        }
        while i < n
            invariant
                n == self.fields@.len(),
                i <= n,
                action_view(out@) == filled(self@.action, fields_view(self.fields@.subrange(0, i as int)), answers@),
            decreases n - i,
        {
            let field = &self.fields[i];
            let said = find_answer(answers, field.name.as_str());
            let answer = tidy(said.as_str(), field.lines);
            lay(&mut out, field.name.clone(), answer);
            proof {
                let fv = fields_view(self.fields@.subrange(0, i as int));
                let next = fields_view(self.fields@.subrange(0, i + 1));
                assert(next =~= fv.push(field@));
                assert(next.drop_last() =~= fv);
            }
            i = i + 1;
        }
        proof {
            assert(self.fields@.subrange(0, n as int) =~= self.fields@);
        }
        out
    }
}

/// A window or a monitor, in physical pixels.
#[derive(Debug, Clone, Copy, PartialEq, Eq, Structural)]
pub struct Rect {
    pub x: i32,
    pub y: i32,
    pub width: i32,
    pub height: i32,
}

/// Where a window goes, in physical pixels.
#[derive(Debug, Clone, Copy, PartialEq, Eq, Structural)]
pub struct Position {
    pub x: i32,
    pub y: i32,
}

/// Half of a whole number, rounded toward zero as integer division does.
pub open spec fn half(n: int) -> int {
    if n >= 0 {
        n / 2
    } else {
        -((-n) / 2)
    }
}

/// A whole number that fits in an `i32`.
pub open spec fn fits(n: int) -> bool {
    i32::MIN <= n <= i32::MAX
}

/// Where a box of `size` goes along one axis: centred on the panel's span, and
/// pushed back onto the monitor's span, or onto its start when the box is
/// bigger than the monitor.
pub open spec fn placed(start: int, length: int, monitor_start: int, monitor_length: int, size: int) -> int {
    let centred = start + half(length - size);
    let last = if monitor_start + monitor_length - size > monitor_start {
        monitor_start + monitor_length - size
    } else {
        monitor_start
    };
    if centred < monitor_start {
        monitor_start
    } else if centred > last {
        last
    } else {
        centred
    }
}

/// Whether the placement along one axis can be worked out in `i32` pixels.
pub open spec fn placeable(start: int, length: int, monitor_start: int, monitor_length: int, size: int) -> bool {
    &&& fits(length - size)
    &&& fits(start + half(length - size))
    &&& fits(monitor_start + monitor_length)
    &&& fits(monitor_start + monitor_length - size)
}

fn place_along(start: i32, length: i32, monitor_start: i32, monitor_length: i32, size: i32) -> (r: i32)
    requires
        placeable(start as int, length as int, monitor_start as int, monitor_length as int, size as int),
    ensures
        r == placed(start as int, length as int, monitor_start as int, monitor_length as int, size as int),
{
    let centred = start + (length - size) / 2;
    let end = monitor_start + monitor_length - size;
    let last = if end > monitor_start {
        end
    } else {
        monitor_start
    };
    if centred < monitor_start {
        monitor_start
    } else if centred > last {
        last
    } else {
        centred
    }
}

/// Returns where a box of this size goes over the panel that asked for it:
/// centred over the panel, never off the monitor, and pushed inward rather
/// than off when the panel is near an edge.
pub fn over(panel: Rect, monitor: Rect, box_width: i32, box_height: i32) -> (r: Position)
    requires
        placeable(panel.x as int, panel.width as int, monitor.x as int, monitor.width as int, box_width as int),
        placeable(panel.y as int, panel.height as int, monitor.y as int, monitor.height as int, box_height as int),
    ensures
        r.x == placed(panel.x as int, panel.width as int, monitor.x as int, monitor.width as int, box_width as int),
        r.y == placed(panel.y as int, panel.height as int, monitor.y as int, monitor.height as int, box_height as int),
{
    Position {
        x: place_along(panel.x, panel.width, monitor.x, monitor.width, box_width),
        y: place_along(panel.y, panel.height, monitor.y, monitor.height, box_height),
    }
}

/// Answers what the display knows the box by, once it has made a window: the
/// display's number for it, where nothing is made yet reads as zero.
pub fn known_window(raw: u32) -> (r: Option<u32>)
    ensures
        r == if raw == 0 {
            None
        } else {
            Some(raw)
        },
{
    if raw == 0 {
        None
    } else {
        Some(raw)
    }
}

/// One question held on the box, and the surface whose backend gets the
/// answer.
pub struct Held {
    surface: String,
    ask: Ask,
}

/// The box's one question, as the form keeps it: refused rather than queued
/// when the box is already asking something.
pub struct Form {
    pending: Option<Held>,
}

/// The question the box holds, as texts: the surface it is for and the ask.
pub closed spec fn held_view(h: Option<Held>) -> Option<(Seq<char>, AskView)> {
    match h {
        Some(held) => Some((held.surface@, held.ask@)),
        None => None,
    }
}

impl View for Form {
    type V = Option<(Seq<char>, AskView)>;

    closed spec fn view(&self) -> Option<(Seq<char>, AskView)> {
        held_view(self.pending)
    }
}

impl Ask {
    /// Returns a copy of this ask.
    pub fn duplicate(&self) -> (r: Ask)
        ensures
            r@ == self@,
    {
        let mut fields: Vec<Field> = Vec::new();
        let mut i: usize = 0;
        while i < self.fields.len()
            invariant
                i <= self.fields@.len(),
                fields_view(fields@) == fields_view(self.fields@.subrange(0, i as int)),
            decreases self.fields@.len() - i,
        {
            let f = &self.fields[i];
            let copy = Field {
                name: f.name.clone(),
                label: f.label.clone(),
                value: f.value.clone(),
                lines: f.lines,
                hint: f.hint.clone(),
            };
            let ghost before = fields@;
            fields.push(copy);
            proof {
                assert(fields_view(fields@) =~= fields_view(before).push(copy@));
                assert(fields_view(self.fields@.subrange(0, i + 1)) =~= fields_view(self.fields@.subrange(0, i as int)).push(f@));
            }
            i = i + 1;
        }
        proof {
            assert(self.fields@.subrange(0, self.fields@.len() as int) =~= self.fields@);
        }
        Ask { title: self.title.clone(), fields, action: copy_action(&self.action) }
    }
}

impl Form {
    /// Returns a form with no question on it.
    pub fn new() -> (r: Form)
        ensures
            r@ is None,
    {
        Form { pending: None }
    }

    /// Puts one question on the box for one surface, given whether the
    /// textbox has a take in it and whether the box is up. Refused while the
    /// textbox holds a take, and while the box is up asking something else:
    /// the words in it are the person's.
    pub fn open(&mut self, surface: String, ask: Ask, textbox_up: bool, box_up: bool) -> (r: Result<(), String>)
        ensures
            textbox_up ==> r is Err && final(self)@ == old(self)@,
            !textbox_up && old(self)@ is Some && box_up ==> r is Err && final(self)@ == old(self)@,
            !textbox_up && !(old(self)@ is Some && box_up) ==> r is Ok && final(self)@ == Some((surface@, ask@)),
            match r {
                Err(e) => e@ == if textbox_up {
                    "the textbox has a take in it"@
                } else {
                    "the box is busy"@
                },
                Ok(_) => true,
            },
    {
        if textbox_up {
            return Err("the textbox has a take in it".to_owned());
        }
        if self.pending.is_some() && box_up {
            return Err("the box is busy".to_owned());
        }
        self.pending = Some(Held { surface, ask });
        Ok(())
    }

    /// The question the box is holding, for a page that has just loaded.
    pub fn asked(&self) -> (r: Option<Ask>)
        ensures
            match r {
                Some(a) => self@ is Some && self@.unwrap().1 == a@,
                None => self@ is None,
            },
    {
        match &self.pending {
            Some(held) => Some(held.ask.duplicate()),
            None => None,
        }
    }

    /// Takes the answers and says where they go: the surface that asked, and
    /// the action with one tidied answer laid in per field asked. The box
    /// holds nothing afterwards.
    pub fn submit(&mut self, answers: &Vec<(String, String)>) -> (r: Option<(String, Vec<(String, ActionValue)>)>)
        ensures
            final(self)@ is None,
            match r {
                Some((surface, filled_in)) => old(self)@ is Some && surface@ == old(self)@.unwrap().0
                    && action_view(filled_in@) == filled(
                    old(self)@.unwrap().1.action,
                    old(self)@.unwrap().1.fields,
                    answers@,
                ),
                None => old(self)@ is None,
            },
    {
        let held = self.pending.take();
        match held {
            Some(held) => {
                let filled_in = held.ask.fill(answers);
                Some((held.surface, filled_in))
            },
            None => None,
        }
    }

    /// Puts the box away with nothing answered.
    pub fn cancel(&mut self)
        ensures
            final(self)@ is None,
    {
        self.pending = None;
    }

    /// Drops a question asked for a surface that is going away, and answers
    /// whether there was one.
    pub fn forget(&mut self, surface: &str) -> (r: bool)
        ensures
            r == (old(self)@ is Some && old(self)@.unwrap().0 == surface@),
            final(self)@ == if r {
                None
            } else {
                old(self)@
            },
    {
        let mine = match &self.pending {
            Some(held) => same(held.surface.as_str(), surface),
            None => false,
        };
        if mine {
            self.cancel();
        }
        mine
    }
}

} // verus!
