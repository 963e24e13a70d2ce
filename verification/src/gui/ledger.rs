//! The ledger pane: the latest trades, most recent first.

use vstd::prelude::*;
use vstd::string::StringExecFns;

verus! {

/// One trade as the dashboard shows it.
#[derive(Clone, Copy, Debug, PartialEq, Eq, Structural)]
pub struct Trade {
    pub sender: usize,
    pub receiver: usize,
    pub money: usize,
}

impl Trade {
    pub fn new(sender: usize, receiver: usize, money: usize) -> (trade: Trade)
        ensures
            trade == (Trade { sender, receiver, money }),
    {
        Trade { sender, receiver, money }
    }

    /// The amount with the sign it is shown with on the desk of `home`: what
    /// the desk receives counts positive, anything else negative.
    pub open spec fn spec_signed_money(self, home: usize) -> int {
        if self.receiver == home {
            self.money as int
        } else {
            -(self.money as int)
        }
    }

    /// The amount with the sign it is shown with on the desk of `home`.
    pub fn signed_money(&self, home: usize) -> (amount: i128)
        ensures
            amount == self.spec_signed_money(home),
    {
        if self.receiver == home {
            self.money as i128
        } else {
            -(self.money as i128)
        }
    }
}

/// The name of a region as text.
pub open spec fn region_name(id: usize) -> Seq<char>
    recommends
        id <= 2,
{
    if id == 0 {
        "Calgary"@
    } else if id == 1 {
        "New York"@
    } else {
        "Signapore"@
    }
}

/// The display name of one of the three regions.
pub fn id_to_region_name(id: usize) -> (name: String)
    requires
        id <= 2,
    ensures
        name@ == region_name(id),
{
    if id == 0 {
        String::from_str("Calgary")
    } else if id == 1 {
        String::from_str("New York")
    } else {
        String::from_str("Signapore")
    }
}

/// The model of the ledger pane.
pub struct LedgerState {
    pub trades: Seq<Trade>,
    pub selected: bool,
    pub focused: bool,
}

/// The ledger pane.
#[derive(Debug)]
pub struct Ledger {
    trades: Vec<Trade>,
    selected: bool,
    focused: bool,
}

impl View for Ledger {
    type V = LedgerState;

    closed spec fn view(&self) -> LedgerState {
        LedgerState { trades: self.trades@, selected: self.selected, focused: self.focused }
    }
}

impl Ledger {
    pub fn new() -> (ledger: Ledger)
        ensures
            ledger@ == (LedgerState { trades: Seq::empty(), selected: false, focused: false }),
    {
        Ledger { trades: Vec::new(), selected: false, focused: false }
    }

    pub fn set_selected(&mut self, select: bool)
        ensures
            final(self)@ == (LedgerState { selected: select, ..old(self)@ }),
    {
        self.selected = select;
    }

    pub fn set_focused(&mut self, highlight: bool)
        ensures
            final(self)@ == (LedgerState { focused: highlight, ..old(self)@ }),
    {
        self.focused = highlight;
    }

    pub fn reset(&mut self)
        ensures
            final(self)@ == (LedgerState { selected: false, focused: false, ..old(self)@ }),
    {
        self.set_focused(false);
        self.set_selected(false);
    }

    /// Replaces the trades shown.
    pub fn set_order_list(&mut self, trades: Vec<Trade>)
        ensures
            final(self)@ == (LedgerState { trades: trades@, ..old(self)@ }),
    {
        self.trades = trades;
    }

    /// The trades shown.
    pub fn trades(&self) -> (trades: &Vec<Trade>)
        ensures
            trades@ == self@.trades,
    {
        &self.trades
    }

    pub fn is_selected(&self) -> (selected: bool)
        ensures
            selected == self@.selected,
    {
        self.selected
    }

    pub fn is_focused(&self) -> (focused: bool)
        ensures
            focused == self@.focused,
    {
        self.focused
    }
}

} // verus!
