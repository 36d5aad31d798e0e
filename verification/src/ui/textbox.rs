//! The state of a single-line text box: a fixed prefix, the typed value, and
//! a focus flag. Key events reach it as plain values.

use vstd::prelude::*;

verus! {

/// A key event, as the text box sees it.
#[derive(Debug, Clone, Copy)]
pub enum KeyInput {
    /// Deletes the last typed character.
    Backspace,
    /// Submits the value; the text box itself does not handle it.
    Enter,
    /// Types one character.
    Char(char),
    /// Any other key; ignored.
    Other,
}

/// The value after one key event: backspace drops the last character of a
/// non-empty value, a typed character is appended, anything else leaves the
/// value as it is.
pub open spec fn spec_edit(v: Seq<char>, key: KeyInput) -> Seq<char> {
    match key {
        KeyInput::Backspace => if v.len() > 0 {
            v.drop_last()
        } else {
            v
        },
        KeyInput::Char(c) => v.push(c),
        _ => v,
    }
}

/// The state of a text box.
pub struct TextBox {
    focus: bool,
    prefix: Option<String>,
    value: String,
}

impl TextBox {
    /// The typed value.
    pub closed spec fn spec_value(&self) -> Seq<char> {
        self.value@
    }

    /// The fixed prefix shown before the value.
    pub closed spec fn spec_prefix(&self) -> Option<Seq<char>> {
        match self.prefix {
            Some(ref s) => Some(s@),
            None => None,
        }
    }

    /// Whether the box has focus.
    pub closed spec fn spec_focused(&self) -> bool {
        self.focus
    }

    /// An empty, unfocused text box with the given prefix.
    pub fn new(prefix: String) -> (r: TextBox)
        ensures
            r.spec_value() == Seq::<char>::empty(),
            r.spec_prefix() == Some(prefix@),
            !r.spec_focused(),
    {
        TextBox { focus: false, prefix: Some(prefix), value: String::new() }
    }

    /// The typed value.
    pub fn value(&self) -> (r: &str)
        ensures
            r@ == self.spec_value(),
    {
        self.value.as_str()
    }

    /// The fixed prefix.
    pub fn prefix(&self) -> (r: &Option<String>)
        ensures
            r is Some <==> self.spec_prefix() is Some,
            r is Some ==> self.spec_prefix() == Some(r->0@),
    {
        &self.prefix
    }

    /// Whether the box has focus.
    pub fn focused(&self) -> (r: bool)
        ensures
            r == self.spec_focused(),
    {
        self.focus
    }

    /// Applies one key event to the value. The enter key is not handled
    /// here: the caller routes it before reaching the text box.
    pub fn input(&mut self, key: KeyInput)
        requires
            !(key is Enter),
        ensures
            final(self).spec_value() == spec_edit(old(self).spec_value(), key),
            final(self).spec_prefix() == old(self).spec_prefix(),
            final(self).spec_focused() == old(self).spec_focused(),
    {
        match key {
            KeyInput::Backspace => {
                let _ = self.value.pop();
            },
            KeyInput::Char(c) => {
                self.value.push(c);
            },
            _ => {},
        }
    }

    /// Gives the box focus.
    pub fn focus(&mut self)
        ensures
            final(self).spec_focused(),
            final(self).spec_value() == old(self).spec_value(),
            final(self).spec_prefix() == old(self).spec_prefix(),
    {
        self.focus = true;
    }

    /// Takes focus away from the box.
    pub fn unfocus(&mut self)
        ensures
            !final(self).spec_focused(),
            final(self).spec_value() == old(self).spec_value(),
            final(self).spec_prefix() == old(self).spec_prefix(),
    {
        self.focus = false;
    }
}

} // verus!
