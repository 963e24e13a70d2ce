//! The account pane: the balance, and when it was last heard of.

use vstd::prelude::*;
use std::time::SystemTime;

verus! {

/// A point in time, as the system clock gives it. Nothing is known of it but
/// that it can be kept and handed on.
#[verifier::external_type_specification]
#[verifier::external_body]
pub struct ExSystemTime(SystemTime);

/// `SystemTime::now`: the time on the system clock, whatever it is.
#[verifier::external_body]
fn clock() -> SystemTime {
    SystemTime::now()
}

/// The model of the account pane.
pub struct AccountState {
    /// The balance last heard of.
    pub balance: Option<i32>,
    /// When it was heard of.
    pub last_update: Option<SystemTime>,
    pub selected: bool,
    pub focused: bool,
}

/// The account panel of the dashboard.
#[derive(Debug)]
pub struct Account {
    /// Current balance.
    balance: Option<i32>,
    /// When the balance was last updated.
    last_update: Option<SystemTime>,
    /// If the pane is selected.
    selected: bool,
    /// If the pane is focused.
    focused: bool,
}

impl View for Account {
    type V = AccountState;

    closed spec fn view(&self) -> AccountState {
        AccountState {
            balance: self.balance,
            last_update: self.last_update,
            selected: self.selected,
            focused: self.focused,
        }
    }
}

impl Default for Account {
    fn default() -> (account: Account)
        ensures
            account@ == (AccountState {
                balance: None,
                last_update: None,
                selected: false,
                focused: false,
            }),
    {
        Account { balance: None, last_update: None, selected: false, focused: false }
    }
}

impl Account {
    /// Set if this pane is selected.
    pub fn set_selected(&mut self, select: bool)
        ensures
            final(self)@ == (AccountState { selected: select, ..old(self)@ }),
    {
        self.selected = select;
    }

    /// Set if this pane is focused.
    pub fn set_focused(&mut self, highlight: bool)
        ensures
            final(self)@ == (AccountState { focused: highlight, ..old(self)@ }),
    {
        self.focused = highlight;
    }

    /// Takes a balance that was heard of at `at`.
    pub fn record_balance(&mut self, balance: i32, at: SystemTime)
        ensures
            final(self)@ == (AccountState {
                balance: Some(balance),
                last_update: Some(at),
                ..old(self)@
            }),
    {
        self.balance = Some(balance);
        self.last_update = Some(at);
    }

    /// Takes a balance that was heard of just now.
    pub fn set_balance(&mut self, balance: i32)
        ensures
            final(self)@.balance == Some(balance),
            final(self)@.last_update is Some,
            final(self)@.selected == old(self)@.selected,
            final(self)@.focused == old(self)@.focused,
    {
        let now = clock();
        self.record_balance(balance, now);
    }

    /// Reset the selection and focus status.
    pub fn reset(&mut self)
        ensures
            final(self)@ == (AccountState { selected: false, focused: false, ..old(self)@ }),
    {
        self.set_selected(false);
        self.set_focused(false);
    }

    /// The balance last heard of.
    pub fn balance(&self) -> (balance: Option<i32>)
        ensures
            balance == self@.balance,
    {
        self.balance
    }

    /// When the balance was last heard of.
    pub fn last_update(&self) -> (at: Option<SystemTime>)
        ensures
            at == self@.last_update,
    {
        self.last_update
    }

    pub fn is_selected(&self) -> (selected: bool)
        ensures
            selected == self@.selected,
    {
        self.selected
    }

    pub fn is_focused(&self) -> (focused: bool)
        ensures
            focused == self@.focused,
    {
        self.focused
    }
}

} // verus!
