//! The editable state behind the terminal front end's widgets: a modal, a
//! text field, a colour field and a search box. Drawing them is left to the
//! front end.

use vstd::prelude::*;

use crate::text::{pop_char, push_char};

verus! {

/// The last character removed, if there is one.
pub open spec fn backspaced(s: Seq<char>) -> Seq<char> {
    if s.len() == 0 {
        s
    } else {
        s.drop_last()
    }
}

/// What the event loop does after a component handled an event.
#[derive(Debug, Clone, Copy, PartialEq, Eq, Structural)]
pub enum LoopEvent {
    Propagate,
    Prevent,
    Refresh,
    Quit,
}

/// An event of the front end's loop: an input, or a tick of its clock.
pub enum Event<I> {
    Input(I),
    Tick,
}

/// The choice of a confirmation dialog.
#[derive(Debug, Clone, Copy, PartialEq, Eq, Structural)]
pub enum ConfirmationOption {
    Yes,
    No,
}

impl ConfirmationOption {
    /// The other choice, as the dialog's toggle selects it.
    pub fn toggled(self) -> (r: ConfirmationOption)
        ensures
            r != self,
    {
        match self {
            ConfirmationOption::Yes => ConfirmationOption::No,
            ConfirmationOption::No => ConfirmationOption::Yes,
        }
    }
}

/// A modal with a title and editable text.
#[derive(Debug, Clone)]
pub struct Modal {
    pub title: String,
    pub text: String,
    pub active: bool,
}

/// What a modal shows, and whether it is shown.
pub ghost struct ModalView {
    pub title: Seq<char>,
    pub text: Seq<char>,
    pub active: bool,
}

impl View for Modal {
    type V = ModalView;

    open spec fn view(&self) -> ModalView {
        ModalView { title: self.title@, text: self.text@, active: self.active }
    }
}

impl Modal {
    /// An active modal.
    pub fn new(title: &str, text: &str) -> (r: Modal)
        ensures
            r@ == (ModalView { title: title@, text: text@, active: true }),
    {
        Modal { title: title.to_string(), text: text.to_string(), active: true }
    }

    pub fn set_title(&mut self, title: &str)
        ensures
            final(self)@ == (ModalView { title: title@, ..old(self)@ }),
    {
        self.title = title.to_string();
    }

    pub fn set_text(&mut self, text: &str)
        ensures
            final(self)@ == (ModalView { text: text@, ..old(self)@ }),
    {
        self.text = text.to_string();
    }

    pub fn write(&mut self, c: char)
        ensures
            final(self)@ == (ModalView { text: old(self)@.text.push(c), ..old(self)@ }),
    {
        push_char(&mut self.text, c);
    }

    pub fn backspace(&mut self)
        ensures
            final(self)@ == (ModalView { text: backspaced(old(self)@.text), ..old(self)@ }),
    {
        pop_char(&mut self.text);
    }

    pub fn is_active(&self) -> (r: bool)
        ensures
            r == self@.active,
    {
        self.active
    }

    pub fn deactivate(&mut self)
        ensures
            final(self)@ == (ModalView { active: false, ..old(self)@ }),
    {
        self.active = false;
    }
}

/// A text field of a form.
#[derive(Debug, Clone)]
pub struct TextField {
    pub title: Option<String>,
    pub value: String,
    pub id: String,
    pub focused: bool,
    pub visible: bool,
    pub read_only: bool,
}

impl TextField {
    /// An unfocused field.
    pub fn new(id: &str, title: &str, value: String, read_only: bool, visible: bool) -> (r: TextField)
        ensures
            r.id@ == id@,
            r.title is Some && r.title->Some_0@ == title@,
            r.value == value,
            !r.focused,
            r.read_only == read_only,
            r.visible == visible,
    {
        TextField {
            id: id.to_string(),
            title: Some(title.to_string()),
            value,
            focused: false,
            read_only,
            visible,
        }
    }

    pub fn remove_title(&mut self)
        ensures
            *final(self) == (TextField { title: None, ..*old(self) }),
    {
        self.title = None;
    }

    pub fn write(&mut self, c: char)
        ensures
            final(self).value@ == old(self).value@.push(c),
            final(self).title == old(self).title,
            final(self).id == old(self).id,
            final(self).focused == old(self).focused,
            final(self).visible == old(self).visible,
            final(self).read_only == old(self).read_only,
    {
        push_char(&mut self.value, c);
    }

    pub fn backspace(&mut self)
        ensures
            final(self).value@ == backspaced(old(self).value@),
            final(self).title == old(self).title,
            final(self).id == old(self).id,
            final(self).focused == old(self).focused,
            final(self).visible == old(self).visible,
            final(self).read_only == old(self).read_only,
    {
        pop_char(&mut self.value);
    }
}

/// A form field that holds an RGB colour as hex text.
#[derive(Debug, Clone)]
pub struct RGBColorField {
    pub title: Option<String>,
    pub value: String,
    pub id: String,
    pub focused: bool,
    pub visible: bool,
    pub read_only: bool,
}

impl RGBColorField {
    /// An unfocused field.
    pub fn new(id: &str, title: &str, value: String, read_only: bool, visible: bool) -> (r: RGBColorField)
        ensures
            r.id@ == id@,
            r.title is Some && r.title->Some_0@ == title@,
            r.value == value,
            !r.focused,
            r.read_only == read_only,
            r.visible == visible,
    {
        RGBColorField {
            id: id.to_string(),
            title: Some(title.to_string()),
            value,
            focused: false,
            read_only,
            visible,
        }
    }

    pub fn remove_title(&mut self)
        ensures
            *final(self) == (RGBColorField { title: None, ..*old(self) }),
    {
        self.title = None;
    }
}

/// The search box: the pattern in use and the one being typed.
#[derive(Debug, Clone)]
pub struct SearchBox {
    pub pattern: String,
    pub tmp: String,
    pub visible: bool,
}

impl SearchBox {
    /// A hidden search box whose typed text starts as the pattern.
    pub fn new(pattern: &str) -> (r: SearchBox)
        ensures
            r.pattern@ == pattern@,
            r.tmp@ == pattern@,
            !r.visible,
    {
        let pattern = pattern.to_string();
        SearchBox { tmp: pattern.clone(), pattern, visible: false }
    }

    pub fn toggle_visible(&mut self)
        ensures
            final(self).visible == !old(self).visible,
            final(self).pattern == old(self).pattern,
            final(self).tmp == old(self).tmp,
    {
        self.visible = !self.visible;
    }

    pub fn set_hidden(&mut self)
        ensures
            !final(self).visible,
            final(self).pattern == old(self).pattern,
            final(self).tmp == old(self).tmp,
    {
        self.visible = false;
    }

    pub fn set_tmp(&mut self, tmp: &str)
        ensures
            final(self).tmp@ == tmp@,
            final(self).pattern == old(self).pattern,
            final(self).visible == old(self).visible,
    {
        self.tmp = tmp.to_string();
    }

    pub fn write(&mut self, c: char)
        ensures
            final(self).tmp@ == old(self).tmp@.push(c),
            final(self).pattern == old(self).pattern,
            final(self).visible == old(self).visible,
    {
        push_char(&mut self.tmp, c);
    }

    pub fn backspace(&mut self)
        ensures
            final(self).tmp@ == backspaced(old(self).tmp@),
            final(self).pattern == old(self).pattern,
            final(self).visible == old(self).visible,
    {
        pop_char(&mut self.tmp);
    }
}

} // verus!
