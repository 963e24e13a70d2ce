//! One region's lock and ledger.
//!
//! An `OrderServer` guards the ledger of one region behind a password and a
//! claimant slot. `ServerState` is its mathematical model: every operation of
//! the server is a transition of that model, written out as a spec function,
//! and the executable methods are proved to make exactly that transition.

use vstd::prelude::*;
use crate::ledger::{committed, effect_of, recent, report, reported, total, total_bounded,
    total_push, window, Order};

verus! {

/// Why an attempt to take a region's lock failed.
#[derive(Clone, Copy, Debug, PartialEq, Eq, Structural)]
pub enum LockError {
    /// Somebody else holds the lock. Trying again later may succeed.
    Busy,
    /// Nobody holds the lock, but the password is not the region's.
    Denied,
    /// The lock has no claim left to hand out.
    Exhausted,
    /// No lock is open for the region asked for.
    NoSuchRegion,
}

/// Why an operation on a region's ledger failed. The ledger is unchanged
/// whenever one of these is returned.
#[derive(Clone, Copy, Debug, PartialEq, Eq, Structural)]
pub enum LedgerError {
    /// The guard is not the current holder of the region's lock.
    NotHolder,
    /// A record is already open.
    AlreadyOpen,
    /// No record is open.
    NoRecordOpen,
    /// The open record does not have all of its fields yet.
    Incomplete,
    /// The record store cannot take a new record right now.
    Busy,
}

/// The record that is being put together between `open_record` and
/// `flush_record`. A field is `None` until it is set.
#[derive(Clone, Copy, Debug)]
pub struct Draft {
    pub sender: Option<i32>,
    pub recipient: Option<i32>,
    pub money: Option<i32>,
}

/// One field of a record, with the value to give it.
#[derive(Clone, Copy, Debug)]
pub enum Field {
    Sender(i32),
    Recipient(i32),
    Money(i32),
}

impl Draft {
    /// The record right after it was opened: nothing set.
    pub open spec fn blank() -> Draft {
        Draft { sender: None, recipient: None, money: None }
    }

    /// The record with one field set, the others as they were.
    pub open spec fn with(self, field: Field) -> Draft {
        match field {
            Field::Sender(v) => Draft { sender: Some(v), ..self },
            Field::Recipient(v) => Draft { recipient: Some(v), ..self },
            Field::Money(v) => Draft { money: Some(v), ..self },
        }
    }

    /// All three fields are set.
    pub open spec fn complete(self) -> bool {
        self.sender is Some && self.recipient is Some && self.money is Some
    }

    /// The order that flushing this record on the ledger of `region` commits.
    pub open spec fn order(self, region: i32) -> Order
        recommends
            self.complete(),
    {
        committed(self.sender->0, self.recipient->0, self.money->0, region)
    }
}

/// What a guard stands for: a ticket of one region's lock.
pub struct Claim {
    pub region: i32,
    pub ticket: u64,
}

/// The model of one region's lock and ledger.
pub struct ServerState {
    /// The region's id.
    pub id: i32,
    /// The region's display name.
    pub name: Seq<char>,
    /// The password that opens the lock.
    pub secret: Seq<char>,
    /// The claimant slot: the ticket that holds the lock, if any.
    pub holder: Option<u64>,
    /// The next ticket to hand out. Every ticket handed out so far is below it.
    pub issued: u64,
    /// The open record, if any.
    pub draft: Option<Draft>,
    /// The committed orders, oldest first.
    pub records: Seq<Order>,
}

impl ServerState {
    /// A region that was just opened: free, idle, with an empty ledger, and
    /// with `issued` tickets counted as handed out already.
    pub open spec fn opened(id: i32, name: Seq<char>, secret: Seq<char>, issued: u64)
        -> ServerState {
        ServerState {
            id,
            name,
            secret,
            holder: None,
            issued,
            draft: None,
            records: Seq::empty(),
        }
    }

    /// The ticket in the claimant slot is one that was handed out.
    pub open spec fn wf(self) -> bool {
        self.holder matches Some(ticket) ==> ticket < self.issued
    }

    /// `ticket` is the current holder of the lock.
    pub open spec fn holds(self, ticket: u64) -> bool {
        self.holder == Some(ticket)
    }

    /// The region's running total.
    pub open spec fn balance(self) -> int {
        total(self.records, self.id as int)
    }

    /// One attempt to take the lock. The test of the claimant slot and the
    /// claim are one step: there is no state in between.
    pub open spec fn try_lock(self, password: Seq<char>) -> (ServerState, Result<u64, LockError>) {
        if self.holder is Some {
            (self, Err(LockError::Busy))
        } else if password != self.secret {
            (self, Err(LockError::Denied))
        } else if self.issued == u64::MAX {
            (self, Err(LockError::Exhausted))
        } else {
            (
                ServerState { holder: Some(self.issued), issued: (self.issued + 1) as u64, ..self },
                Ok(self.issued),
            )
        }
    }

    /// The holder gives the lock back. From anybody else this changes nothing.
    pub open spec fn release(self, ticket: u64) -> ServerState {
        if self.holds(ticket) {
            ServerState { holder: None, ..self }
        } else {
            self
        }
    }

    /// The holder opens a record. `busy` says that the record store cannot
    /// take one right now.
    pub open spec fn open_record(self, ticket: u64, busy: bool) -> (
        ServerState,
        Result<(), LedgerError>,
    ) {
        if !self.holds(ticket) {
            (self, Err(LedgerError::NotHolder))
        } else if self.draft is Some {
            (self, Err(LedgerError::AlreadyOpen))
        } else if busy {
            (self, Err(LedgerError::Busy))
        } else {
            (ServerState { draft: Some(Draft::blank()), ..self }, Ok(()))
        }
    }

    /// The holder sets one field of the open record.
    pub open spec fn stage(self, ticket: u64, field: Field) -> (
        ServerState,
        Result<(), LedgerError>,
    ) {
        if !self.holds(ticket) {
            (self, Err(LedgerError::NotHolder))
        } else if self.draft is None {
            (self, Err(LedgerError::NoRecordOpen))
        } else {
            (ServerState { draft: Some(self.draft->0.with(field)), ..self }, Ok(()))
        }
    }

    /// The holder commits the open record: it becomes the most recent order
    /// and the ledger is idle again.
    pub open spec fn flush_record(self, ticket: u64) -> (ServerState, Result<(), LedgerError>) {
        if !self.holds(ticket) {
            (self, Err(LedgerError::NotHolder))
        } else if self.draft is None {
            (self, Err(LedgerError::NoRecordOpen))
        } else if !self.draft->0.complete() {
            (self, Err(LedgerError::Incomplete))
        } else {
            (
                ServerState {
                    draft: None,
                    records: self.records.push(self.draft->0.order(self.id)),
                    ..self
                },
                Ok(()),
            )
        }
    }

    /// What the holder reads as the region's balance.
    pub open spec fn get_balance(self, ticket: u64) -> Result<i32, LedgerError> {
        if !self.holds(ticket) {
            Err(LedgerError::NotHolder)
        } else {
            Ok(reported(self.balance()))
        }
    }

    /// What the holder reads as the `n` most recent orders.
    pub open spec fn top_n_orders(self, ticket: u64, n: nat) -> Result<Seq<Order>, LedgerError> {
        if !self.holds(ticket) {
            Err(LedgerError::NotHolder)
        } else {
            Ok(window(self.records, n))
        }
    }
}

/// The proof of exclusive access to one region's ledger. It is handed out by
/// a successful `try_lock`, cannot be copied, and is used up by `release`. A
/// guard that is thrown away without `release` leaves its lock held.
#[derive(Debug)]
#[must_use]
pub struct AcquiredOrderServer {
    region: i32,
    ticket: u64,
}

impl View for AcquiredOrderServer {
    type V = Claim;

    closed spec fn view(&self) -> Claim {
        Claim { region: self.region, ticket: self.ticket }
    }
}

impl AcquiredOrderServer {
    /// The region whose lock this guard was handed out by.
    pub fn region(&self) -> (region: i32)
        ensures
            region == self@.region,
    {
        self.region
    }

    pub(crate) fn ticket(&self) -> (ticket: u64)
        ensures
            ticket == self@.ticket,
    {
        self.ticket
    }
}

/// The lock and ledger of one region.
pub struct OrderServer {
    id: i32,
    name: String,
    secret: String,
    holder: Option<u64>,
    issued: u64,
    draft: Option<Draft>,
    records: Vec<Order>,
    balance: i128,
}

impl View for OrderServer {
    type V = ServerState;

    closed spec fn view(&self) -> ServerState {
        ServerState {
            id: self.id,
            name: self.name@,
            secret: self.secret@,
            holder: self.holder,
            issued: self.issued,
            draft: self.draft,
            records: self.records@,
        }
    }
}

impl OrderServer {
    /// The server is well formed: its model is, and the total it keeps is the
    /// total of its ledger.
    pub closed spec fn inv(&self) -> bool {
        &&& self@.wf()
        &&& self.balance == total(self.records@, self.id as int)
    }

    /// A well-formed server has a well-formed model.
    pub proof fn inv_wf(&self)
        requires
            self.inv(),
        ensures
            self@.wf(),
    {
    }

    /// Opens the lock and ledger of region `id`.
    pub(crate) fn open(id: i32, name: String, secret: String, issued: u64) -> (server: OrderServer)
        ensures
            server.inv(),
            server@ == ServerState::opened(id, name@, secret@, issued),
    {
        OrderServer {
            id,
            name,
            secret,
            holder: None,
            issued,
            draft: None,
            records: Vec::new(),
            balance: 0,
        }
    }

    /// The region's id.
    pub fn id(&self) -> (id: i32)
        ensures
            id == self@.id,
    {
        self.id
    }

    /// The region's display name.
    pub fn get_name(&self) -> (name: &str)
        ensures
            name@ == self@.name,
    {
        self.name.as_str()
    }

    /// Whether somebody holds the lock right now.
    pub fn is_held(&self) -> (held: bool)
        ensures
            held == self@.holder is Some,
    {
        self.holder.is_some()
    }

    /// Whether `guard` is the current holder of this server's lock.
    pub fn is_held_by(&self, guard: &AcquiredOrderServer) -> (held: bool)
        ensures
            held == (guard@.region == self@.id && self@.holds(guard@.ticket)),
    {
        guard.region == self.id && self.holds_ticket(guard.ticket)
    }

    fn holds_ticket(&self, ticket: u64) -> (held: bool)
        ensures
            held == self@.holds(ticket),
    {
        match self.holder {
            Some(holder) => holder == ticket,
            None => false,
        }
    }

    /// Tries to take the lock with `password`. The lock is taken, and a guard
    /// returned, exactly when nobody holds it, the password is the region's
    /// and a ticket is left; otherwise the server is unchanged and the error
    /// says which of these failed first.
    pub fn try_lock(&mut self, password: &str) -> (result: Result<AcquiredOrderServer, LockError>)
        requires
            old(self).inv(),
        ensures
            final(self).inv(),
            final(self)@ == old(self)@.try_lock(password@).0,
            match result {
                Ok(guard) => old(self)@.try_lock(password@).1 == Ok::<u64, LockError>(guard@.ticket)
                    && guard@.region == old(self)@.id,
                Err(e) => old(self)@.try_lock(password@).1 == Err::<u64, LockError>(e),
            },
    {
        if self.holder.is_some() {
            return Err(LockError::Busy);
        }
        let given = password.to_owned();
        if !(given == self.secret) {
            return Err(LockError::Denied);
        }
        if self.issued == u64::MAX {
            return Err(LockError::Exhausted);
        }
        let ticket = self.issued;
        self.issued = ticket + 1;
        self.holder = Some(ticket);
        Ok(AcquiredOrderServer { region: self.id, ticket })
    }

    /// Gives the lock back if `ticket` holds it.
    pub(crate) fn release_lock(&mut self, ticket: u64)
        requires
            old(self).inv(),
        ensures
            final(self).inv(),
            final(self)@ == old(self)@.release(ticket),
    {
        if self.holds_ticket(ticket) {
            self.holder = None;
        }
    }

    /// Opens a record for the holder.
    pub(crate) fn open_record(&mut self, ticket: u64, busy: bool) -> (result: Result<
        (),
        LedgerError,
    >)
        requires
            old(self).inv(),
        ensures
            final(self).inv(),
            final(self)@ == old(self)@.open_record(ticket, busy).0,
            result == old(self)@.open_record(ticket, busy).1,
    {
        if !self.holds_ticket(ticket) {
            return Err(LedgerError::NotHolder);
        }
        if self.draft.is_some() {
            return Err(LedgerError::AlreadyOpen);
        }
        if busy {
            return Err(LedgerError::Busy);
        }
        self.draft = Some(Draft { sender: None, recipient: None, money: None });
        Ok(())
    }

    /// Sets one field of the open record for the holder.
    pub(crate) fn stage(&mut self, ticket: u64, field: Field) -> (result: Result<(), LedgerError>)
        requires
            old(self).inv(),
        ensures
            final(self).inv(),
            final(self)@ == old(self)@.stage(ticket, field).0,
            result == old(self)@.stage(ticket, field).1,
    {
        if !self.holds_ticket(ticket) {
            return Err(LedgerError::NotHolder);
        }
        match self.draft {
            None => Err(LedgerError::NoRecordOpen),
            Some(draft) => {
                let next = match field {
                    Field::Sender(v) => Draft {
                        sender: Some(v),
                        recipient: draft.recipient,
                        money: draft.money,
                    },
                    Field::Recipient(v) => Draft {
                        sender: draft.sender,
                        recipient: Some(v),
                        money: draft.money,
                    },
                    Field::Money(v) => Draft {
                        sender: draft.sender,
                        recipient: draft.recipient,
                        money: Some(v),
                    },
                };
                self.draft = Some(next);
                Ok(())
            },
        }
    }

    /// Commits the open record for the holder.
    pub(crate) fn flush_record(&mut self, ticket: u64) -> (result: Result<(), LedgerError>)
        requires
            old(self).inv(),
        ensures
            final(self).inv(),
            final(self)@ == old(self)@.flush_record(ticket).0,
            result == old(self)@.flush_record(ticket).1,
    {
        if !self.holds_ticket(ticket) {
            return Err(LedgerError::NotHolder);
        }
        match self.draft {
            None => Err(LedgerError::NoRecordOpen),
            Some(draft) => {
                match (draft.sender, draft.recipient, draft.money) {
                    (Some(sender), Some(recipient), Some(money)) => {
                        let order = Order::new(sender, recipient, money, self.id);
                        let change = effect_of(&order, self.id);
                        let count = self.records.len();
                        proof {
                            total_bounded(self.records@, self.id as int);
                            total_push(self.records@, order, self.id as int);
                            assert(count * 0x8000_0000 <= 0xffff_ffff_ffff_ffff * 0x8000_0000)
                                by (nonlinear_arith)
                                requires
                                    count <= 0xffff_ffff_ffff_ffff,
                            ;
                        }
                        self.balance = self.balance + (change as i128);
                        self.records.push(order);
                        self.draft = None;
                        Ok(())
                    },
                    _ => Err(LedgerError::Incomplete),
                }
            },
        }
    }

    /// The balance as the holder reads it.
    pub(crate) fn get_balance(&self, ticket: u64) -> (result: Result<i32, LedgerError>)
        requires
            self.inv(),
        ensures
            result == self@.get_balance(ticket),
    {
        if !self.holds_ticket(ticket) {
            return Err(LedgerError::NotHolder);
        }
        Ok(report(self.balance))
    }

    /// The `n` most recent orders as the holder reads them.
    pub(crate) fn top_n_orders(&self, ticket: u64, n: usize) -> (result: Result<
        Vec<Order>,
        LedgerError,
    >)
        requires
            self.inv(),
        ensures
            match result {
                Ok(orders) => self@.top_n_orders(ticket, n as nat) == Ok::<Seq<Order>, LedgerError>(
                    orders@,
                ),
                Err(e) => self@.top_n_orders(ticket, n as nat) == Err::<Seq<Order>, LedgerError>(e),
            },
    {
        if !self.holds_ticket(ticket) {
            return Err(LedgerError::NotHolder);
        }
        Ok(recent(&self.records, n))
    }
}

} // verus!
