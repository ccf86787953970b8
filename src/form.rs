//! The focus cursor of a form: one input at a time, moved without wrapping.
use vstd::prelude::*;

verus! {

pub struct Form {
    pub focused_input: usize,
    pub input_count: usize,
    pub fixed_width: Option<u16>,
}

impl Form {
    pub open spec fn wf(&self) -> bool {
        self.input_count > 0 && self.focused_input < self.input_count
    }

    /// A form over `input_count` inputs, the first focused.
    pub fn new(input_count: usize) -> (r: Form)
        requires
            input_count > 0,
        ensures
            r.wf(),
            r.focused_input == 0,
            r.input_count == input_count,
            r.fixed_width.is_none(),
    {
        Form { focused_input: 0, input_count, fixed_width: None }
    }

    pub fn fixed_width(self, fixed_width: u16) -> (r: Form)
        ensures
            r.fixed_width == Some(fixed_width),
            r.focused_input == self.focused_input,
            r.input_count == self.input_count,
    {
        Form { fixed_width: Some(fixed_width), ..self }
    }

    pub fn focus_first(&mut self)
        requires
            old(self).wf(),
        ensures
            final(self).wf(),
            final(self).focused_input == 0,
            final(self).input_count == old(self).input_count,
    {
        self.focused_input = 0;
    }

    pub fn focus_last(&mut self)
        requires
            old(self).wf(),
        ensures
            final(self).wf(),
            final(self).focused_input == old(self).input_count - 1,
            final(self).input_count == old(self).input_count,
    {
        self.focused_input = self.input_count - 1;
    }

    pub fn is_focus_first(&self) -> (r: bool)
        ensures
            r == (self.focused_input == 0),
    {
        self.focused_input == 0
    }

    pub fn is_focus_last(&self) -> (r: bool)
        requires
            self.wf(),
        ensures
            r == (self.focused_input == self.input_count - 1),
    {
        self.focused_input == self.input_count - 1
    }

    /// The next input, staying on the last.
    pub fn focus_next(&mut self)
        requires
            old(self).wf(),
        ensures
            final(self).wf(),
            final(self).focused_input == if old(self).focused_input + 1 < old(self).input_count {
                old(self).focused_input + 1
            } else {
                old(self).focused_input as int
            },
            final(self).input_count == old(self).input_count,
    {
        if !self.is_focus_last() {
            self.focused_input = self.focused_input + 1;
        }
    }

    /// The previous input, staying on the first.
    pub fn focus_prev(&mut self)
        requires
            old(self).wf(),
        ensures
            final(self).wf(),
            final(self).focused_input == if old(self).focused_input > 0 {
                old(self).focused_input - 1
            } else {
                0
            },
            final(self).input_count == old(self).input_count,
    {
        if !self.is_focus_first() {
            self.focused_input = self.focused_input - 1;
        }
    }
}

} // verus!
