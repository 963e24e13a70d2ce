//! The login screen: a password buffer that locks while an attempt is under
//! way.

use vstd::prelude::*;
use crate::gui::keys::{Key, KeyPress};
use crate::gui::{next_tick, text_of, tick_after};

verus! {

/// The model of the login widget.
pub struct LoginState {
    pub tick: usize,
    /// What was typed so far.
    pub password: Seq<char>,
    /// An attempt is under way: keys are ignored.
    pub locked: bool,
}

impl LoginState {
    /// The widget after a key press.
    pub open spec fn after_key(self, event: KeyPress) -> LoginState {
        if self.locked {
            self
        } else {
            match event.key {
                Key::Backspace => LoginState {
                    password: if self.password.len() > 0 {
                        self.password.drop_last()
                    } else {
                        self.password
                    },
                    ..self
                },
                Key::Char(c) => LoginState { password: self.password.push(c), ..self },
                Key::Enter => LoginState { locked: true, ..self },
                _ => self,
            }
        }
    }

    /// The password that a key press submits, if it submits one.
    pub open spec fn submitted(self, event: KeyPress) -> Option<Seq<char>> {
        if !self.locked && event.key == Key::Enter {
            Some(self.password)
        } else {
            None
        }
    }
}

/// The login widget.
#[derive(Debug)]
pub struct Login {
    /// The tick count, which blinks the cursor.
    pub tick: usize,
    /// The password buffer.
    password: Vec<char>,
    /// If the login is currently locked.
    locked: bool,
}

impl View for Login {
    type V = LoginState;

    closed spec fn view(&self) -> LoginState {
        LoginState { tick: self.tick, password: self.password@, locked: self.locked }
    }
}

impl Default for Login {
    fn default() -> (login: Login)
        ensures
            login@ == (LoginState { tick: 0, password: Seq::empty(), locked: false }),
    {
        Login { tick: 0, password: Vec::new(), locked: false }
    }
}

impl Login {
    /// Handles a key press. While the widget is locked nothing happens.
    /// Otherwise backspace takes the last character away, a character key
    /// adds its character, and enter locks the widget and submits the
    /// password, which is returned.
    pub fn handle_key_event(&mut self, event: KeyPress) -> (attempt: Option<String>)
        ensures
            final(self)@ == old(self)@.after_key(event),
            match attempt {
                Some(password) => old(self)@.submitted(event) == Some(password@),
                None => old(self)@.submitted(event) is None,
            },
    {
        if self.locked {
            return None;
        }
        match event.key {
            Key::Backspace => {
                self.password.pop();
                None
            },
            Key::Char(c) => {
                self.password.push(c);
                None
            },
            Key::Enter => {
                let attempt = text_of(self.password.clone());
                self.locked = true;
                Some(attempt)
            },
            _ => None,
        }
    }

    /// Moves the cursor's blinking one tick on.
    pub fn advance(&mut self)
        requires
            old(self)@.tick < usize::MAX,
        ensures
            final(self)@ == (LoginState { tick: next_tick(old(self)@.tick), ..old(self)@ }),
    {
        self.tick = tick_after(self.tick);
    }

    /// Unlocks the widget and empties the password buffer, so that it can be
    /// used again.
    pub fn unlock(&mut self)
        ensures
            final(self)@ == (LoginState { password: Seq::empty(), locked: false, ..old(self)@ }),
    {
        self.password.clear();
        self.locked = false;
    }

    /// What was typed so far.
    pub fn password(&self) -> (password: &Vec<char>)
        ensures
            password@ == self@.password,
    {
        &self.password
    }

    pub fn is_locked(&self) -> (locked: bool)
        ensures
            locked == self@.locked,
    {
        self.locked
    }

    /// Whether the cursor is shown at this tick: five ticks on, five off,
    /// and never while the widget is locked.
    pub fn cursor_visible(&self) -> (visible: bool)
        ensures
            visible == (!self@.locked && self@.tick % 10 < 5),
    {
        !self.locked && self.tick % 10 < 5
    }
}

} // verus!
