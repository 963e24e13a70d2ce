//! The buttons of the trade form.

use vstd::prelude::*;
use crate::gui::keys::{Key, KeyPress};

verus! {

/// How much one key press changes an amount of money.
pub const MONEY_STEP: usize = 50;

/// The exact type of the form button.
#[derive(Debug, Clone)]
#[allow(inconsistent_fields)]
pub enum FormButtonType {
    /// The normal form button type, also known as the locked type.
    Normal { content: String },
    /// A form button that can be cycled.
    Cycle { options: Vec<String>, position: usize },
    /// A button representing a monetary quantity.
    Money { content: usize },
    /// A normal button that can be clicked.
    Clickable,
}

/// A button's type as a mathematical value.
#[allow(inconsistent_fields)]
pub enum ButtonKind {
    Normal { content: Seq<char> },
    Cycle { options: Seq<Seq<char>>, position: usize },
    Money { content: usize },
    Clickable,
}

impl View for FormButtonType {
    type V = ButtonKind;

    open spec fn view(&self) -> ButtonKind {
        match self {
            FormButtonType::Normal { content } => ButtonKind::Normal { content: content@ },
            FormButtonType::Cycle { options, position } => ButtonKind::Cycle {
                options: Seq::new(options@.len(), |i: int| options@[i]@),
                position: *position,
            },
            FormButtonType::Money { content } => ButtonKind::Money { content: *content },
            FormButtonType::Clickable => ButtonKind::Clickable,
        }
    }
}

impl ButtonKind {
    /// A key press can be handled: stepping up does not run over the end of
    /// the options or of the machine's numbers, and stepping an amount down
    /// does not run below zero.
    pub open spec fn accepts(self, event: KeyPress) -> bool {
        match (self, event.key) {
            (ButtonKind::Cycle { options, position }, Key::Up) => options.len() > 0 && position
                < usize::MAX,
            (ButtonKind::Money { content }, Key::Up) => content + MONEY_STEP <= usize::MAX,
            (ButtonKind::Money { content }, Key::Down) => content == 0 || content >= MONEY_STEP,
            _ => true,
        }
    }

    /// The button's type after a key press: up moves a cycle one option on,
    /// but not past the last, and raises an amount by one step; down moves a
    /// cycle one option back, but not before the first, and lowers an amount
    /// by one step, but not below zero. Nothing else changes anything.
    pub open spec fn after_key(self, event: KeyPress) -> ButtonKind {
        match (self, event.key) {
            (ButtonKind::Cycle { options, position }, Key::Up) => ButtonKind::Cycle {
                options,
                position: if position + 1 <= options.len() - 1 {
                    (position + 1) as usize
                } else {
                    (options.len() - 1) as usize
                },
            },
            (ButtonKind::Money { content }, Key::Up) => ButtonKind::Money {
                content: (content + MONEY_STEP) as usize,
            },
            (ButtonKind::Cycle { options, position }, Key::Down) => ButtonKind::Cycle {
                options,
                position: if position > 0 {
                    (position - 1) as usize
                } else {
                    position
                },
            },
            (ButtonKind::Money { content }, Key::Down) => ButtonKind::Money {
                content: if content > 0 {
                    (content - MONEY_STEP) as usize
                } else {
                    content
                },
            },
            _ => self,
        }
    }
}

/// The model of a form button.
pub struct ButtonState {
    pub name: Seq<char>,
    pub selected: bool,
    pub focused: bool,
    pub kind: ButtonKind,
}

/// This is a versatile button component used for the creation of the
/// dashboard.
#[derive(Debug, Clone)]
pub struct FormButton {
    name: String,
    selected: bool,
    focused: bool,
    form_type: FormButtonType,
}

impl View for FormButton {
    type V = ButtonState;

    closed spec fn view(&self) -> ButtonState {
        ButtonState {
            name: self.name@,
            selected: self.selected,
            focused: self.focused,
            kind: self.form_type@,
        }
    }
}

impl FormButton {
    /// Creates a form button from a name (title) and a type.
    pub fn new(name: &str, form_type: FormButtonType) -> (button: FormButton)
        ensures
            button@ == (ButtonState {
                name: name@,
                selected: false,
                focused: false,
                kind: form_type@,
            }),
    {
        FormButton { name: name.to_owned(), form_type, focused: false, selected: false }
    }

    /// Creates a locked type (normal) form button.
    pub fn locked(name: &str, content: &str) -> (button: FormButton)
        ensures
            button@ == (ButtonState {
                name: name@,
                selected: false,
                focused: false,
                kind: ButtonKind::Normal { content: content@ },
            }),
    {
        Self::new(name, FormButtonType::Normal { content: content.to_owned() })
    }

    /// Creates a cyclic form button where we have a variety of options we
    /// can cycle through, starting at the first.
    pub fn cycle(name: &str, options: Vec<String>) -> (button: FormButton)
        ensures
            button@ == (ButtonState {
                name: name@,
                selected: false,
                focused: false,
                kind: ButtonKind::Cycle {
                    options: Seq::new(options@.len(), |i: int| options@[i]@),
                    position: 0,
                },
            }),
    {
        Self::new(name, FormButtonType::Cycle { options, position: 0 })
    }

    /// Gets the monetary quantity within the form button, or returns none if
    /// that is not the correct type.
    pub fn get_money(&self) -> (money: Option<usize>)
        ensures
            money == match self@.kind {
                ButtonKind::Money { content } => Some(content),
                _ => None,
            },
    {
        match &self.form_type {
            FormButtonType::Money { content } => Some(*content),
            _ => None,
        }
    }

    /// Gets the cycle list position if it is available.
    pub fn get_position(&self) -> (position: Option<usize>)
        ensures
            position == match self@.kind {
                ButtonKind::Cycle { options, position } => Some(position),
                _ => None,
            },
    {
        match &self.form_type {
            FormButtonType::Cycle { options: _, position } => Some(*position),
            _ => None,
        }
    }

    /// Whether `handle_key_event` can take this key press.
    pub fn accepts(&self, event: KeyPress) -> (ok: bool)
        ensures
            ok == self@.kind.accepts(event),
    {
        match (&self.form_type, event.key) {
            (FormButtonType::Cycle { options, position }, Key::Up) => options.len() > 0
                && *position < usize::MAX,
            (FormButtonType::Money { content }, Key::Up) => *content <= usize::MAX - MONEY_STEP,
            (FormButtonType::Money { content }, Key::Down) => *content == 0 || *content
                >= MONEY_STEP,
            _ => true,
        }
    }

    /// Handle the key event, this is only triggered if the button is
    /// selected and focused, in which case it will allow cycling and such.
    pub fn handle_key_event(&mut self, event: KeyPress)
        requires
            old(self)@.kind.accepts(event),
        ensures
            final(self)@ == (ButtonState { kind: old(self)@.kind.after_key(event), ..old(self)@ }),
    {
        let ghost before = self.form_type@;
        match event.key {
            Key::Up => {
                match &mut self.form_type {
                    FormButtonType::Cycle { options, position } => {
                        let last = options.len() - 1;
                        let next = *position + 1;
                        *position = if next <= last {
                            next
                        } else {
                            last
                        };
                    },
                    FormButtonType::Money { content } => {
                        *content = *content + MONEY_STEP;
                    },
                    _ => {},
                }
            },
            Key::Down => {
                match &mut self.form_type {
                    FormButtonType::Cycle { options: _, position } => {
                        if *position > 0 {
                            *position = *position - 1;
                        }
                    },
                    FormButtonType::Money { content } => {
                        if *content > 0 {
                            *content = *content - MONEY_STEP;
                        }
                    },
                    _ => {},
                }
            },
            _ => {},
        }
        assert(self.form_type@ == before.after_key(event));
    }

    /// A money type form button.
    pub fn money(name: &str, initial: usize) -> (button: FormButton)
        ensures
            button@ == (ButtonState {
                name: name@,
                selected: false,
                focused: false,
                kind: ButtonKind::Money { content: initial },
            }),
    {
        Self::new(name, FormButtonType::Money { content: initial })
    }

    /// A clickable form button.
    pub fn clickable(name: &str) -> (button: FormButton)
        ensures
            button@ == (ButtonState {
                name: name@,
                selected: false,
                focused: false,
                kind: ButtonKind::Clickable,
            }),
    {
        Self::new(name, FormButtonType::Clickable)
    }

    /// Sets the selection.
    pub fn set_selected(&mut self, select: bool)
        ensures
            final(self)@ == (ButtonState { selected: select, ..old(self)@ }),
    {
        self.selected = select;
    }

    /// Sets if we are focused.
    pub fn set_focused(&mut self, focus: bool)
        ensures
            final(self)@ == (ButtonState { focused: focus, ..old(self)@ }),
    {
        self.focused = focus;
    }

    /// Resets the focused and selection state.
    pub fn reset(&mut self)
        ensures
            final(self)@ == (ButtonState { selected: false, focused: false, ..old(self)@ }),
    {
        self.set_selected(false);
        self.set_focused(false);
    }

    /// The button's title.
    pub fn name(&self) -> (name: &str)
        ensures
            name@ == self@.name,
    {
        self.name.as_str()
    }

    /// The button's type.
    pub fn form_type(&self) -> (form_type: &FormButtonType)
        ensures
            form_type@ == self@.kind,
    {
        &self.form_type
    }

    pub fn is_selected(&self) -> (selected: bool)
        ensures
            selected == self@.selected,
    {
        self.selected
    }

    pub fn is_focused(&self) -> (focused: bool)
        ensures
            focused == self@.focused,
    {
        self.focused
    }
}

} // verus!
