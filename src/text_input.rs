//! A single-line text field with a limit on its length in characters.
use crate::focus::{AppState, Mode};
use crate::key::Key;
use vstd::prelude::*;

verus! {

/// Relies on std's String::push: the character is appended.
#[verifier::external_body]
fn push_char(s: &mut String, c: char)
    ensures
        final(s)@ == old(s)@.push(c),
{
    s.push(c)
}

/// Removes the last character, if there is one.
fn pop_char(s: &mut String)
    ensures
        old(s)@.len() > 0 ==> final(s)@ == old(s)@.drop_last(),
        old(s)@.len() == 0 ==> *final(s) == *old(s),
{
    let n = s.as_str().unicode_len();
    if n > 0 {
        let kept = s.as_str().substring_char(0, n - 1).to_owned();
        *s = kept;
    }
}

/// A text field; `max` bounds its length in characters (Unicode scalar
/// values), `required_len`, when set, is the only non-empty length it accepts.
pub struct TextInput {
    pub input: String,
    pub max: usize,
    pub required: bool,
    pub required_len: Option<usize>,
}

impl TextInput {
    pub open spec fn wf(&self) -> bool {
        self.input@.len() <= self.max
    }

    /// Whether the contents may be saved: not empty when required, and of
    /// exactly the required length when one is set and something was typed.
    pub open spec fn spec_is_valid(&self) -> bool {
        &&& (self.required ==> self.input@.len() > 0)
        &&& match self.required_len {
            Some(n) => self.input@.len() == 0 || self.input@.len() == n,
            None => true,
        }
    }

    pub fn new(max: usize) -> (r: TextInput)
        ensures
            r.input@.len() == 0,
            r.max == max,
            !r.required,
            r.required_len.is_none(),
            r.wf(),
    {
        TextInput { input: String::new(), max, required: false, required_len: None }
    }

    /// A field that must not be left empty.
    pub fn required(self) -> (r: TextInput)
        ensures
            r.input@ == self.input@,
            r.max == self.max,
            r.required,
            r.required_len == self.required_len,
    {
        TextInput { input: self.input, max: self.max, required: true, required_len: self.required_len }
    }

    /// A field that holds either nothing or exactly `len` characters.
    pub fn required_len(self, len: usize) -> (r: TextInput)
        ensures
            r.input@ == self.input@,
            r.max == if self.max > len { self.max } else { len },
            r.required == self.required,
            r.required_len == Some(len),
    {
        let max = if self.max > len { self.max } else { len };
        TextInput { input: self.input, max, required: self.required, required_len: Some(len) }
    }

    pub fn is_valid(&self) -> (r: bool)
        ensures
            r == self.spec_is_valid(),
    {
        let n = self.input.as_str().unicode_len();
        let filled = !self.required || n > 0;
        let sized = match self.required_len {
            Some(len) => n == 0 || n == len,
            None => true,
        };
        filled && sized
    }

    /// Replaces the contents, cut to the limit.
    pub fn set_input(&mut self, value: String)
        ensures
            final(self).input@ == if value@.len() <= old(self).max {
                value@
            } else {
                value@.subrange(0, old(self).max as int)
            },
            final(self).max == old(self).max,
            final(self).required == old(self).required,
            final(self).required_len == old(self).required_len,
            final(self).wf(),
    {
        let n = value.as_str().unicode_len();
        if n <= self.max {
            self.input = value;
        } else {
            let cut = value.as_str().substring_char(0, self.max);
            self.input = cut.to_owned();
        }
    }

    /// The contents.
    pub fn input_string(&self) -> (r: String)
        ensures
            r@ == self.input@,
    {
        self.input.clone()
    }

    pub fn reset(&mut self)
        ensures
            final(self).input@.len() == 0,
            final(self).max == old(self).max,
            final(self).required == old(self).required,
            final(self).required_len == old(self).required_len,
            final(self).wf(),
    {
        self.input = String::new();
    }

    /// Typing: `i` starts editing, a character is appended while there is
    /// room, backspace removes the last one and escape stops editing.
    pub fn key_event_handler(&mut self, app: &mut AppState, key: Key)
        requires
            old(self).wf(),
        ensures
            final(self).wf(),
            final(self).max == old(self).max,
            final(self).required == old(self).required,
            final(self).required_len == old(self).required_len,
            final(self).input@ == typed(old(self).input@, old(self).max as nat, old(app).display.mode, key),
            !edits(old(self).input@, old(self).max as nat, old(app).display.mode, key) ==> *final(self)
                == *old(self),
            final(app).display == typed_display(old(app).display, key),
            final(app).covered@ == old(app).covered@,
            final(app).module == old(app).module,
            final(app).popup == old(app).popup,
            final(app).running == old(app).running,
    {
        if app.is_insert_mode() {
            match key {
                Key::Char(c) => {
                    if self.input.as_str().unicode_len() < self.max {
                        push_char(&mut self.input, c);
                    }
                },
                Key::Backspace => pop_char(&mut self.input),
                Key::Esc => app.set_mode(Mode::Navigation),
                _ => {},
            }
        } else if app.is_normal_mode() && key == Key::Char('i') {
            app.set_mode(Mode::Insert);
        }
    }
}

/// The contents after a key press in the given mode.
pub open spec fn typed(s: Seq<char>, max: nat, mode: Mode, key: Key) -> Seq<char> {
    if mode == Mode::Insert {
        match key {
            Key::Char(c) => if s.len() < max { s.push(c) } else { s },
            Key::Backspace => if s.len() > 0 { s.drop_last() } else { s },
            _ => s,
        }
    } else {
        s
    }
}

/// Whether a key press changes the contents.
pub open spec fn edits(s: Seq<char>, max: nat, mode: Mode, key: Key) -> bool {
    mode == Mode::Insert && match key {
        Key::Char(_) => s.len() < max,
        Key::Backspace => s.len() > 0,
        _ => false,
    }
}

/// The display after a key press in a text field.
pub open spec fn typed_display(d: crate::focus::Display, key: Key) -> crate::focus::Display {
    if d.mode == Mode::Insert && key == Key::Esc {
        crate::focus::Display { view: d.view, mode: Mode::Navigation }
    } else if d.mode == Mode::Navigation && key == Key::Char('i') {
        crate::focus::Display { view: d.view, mode: Mode::Insert }
    } else {
        d
    }
}

} // verus!
