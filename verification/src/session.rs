//! The session handler: what one connection may do, request by request.
//!
//! A session starts unauthenticated. A login takes the lock of a region and
//! keeps its guard for the rest of the connection; balance, trade and history
//! requests go through that guard. Anything else ends the session, and a
//! session that ends gives its guard back. The transport reads requests and
//! writes replies; what to reply, and when to stop, is decided here.

use vstd::prelude::*;
use crate::book::{BookState, MasterOrderBook};
use crate::server::{AcquiredOrderServer, Claim, Field, LedgerError, LockError};
use crate::wire::{encode_balance, encode_history, encode_login_reply, history_reply, le_i32,
    login_reply, Request, RequestView};

verus! {

/// What the transport is to do after a request was handled.
#[derive(Debug)]
pub enum Action {
    /// Write these bytes, then go on reading.
    Send(Vec<u8>),
    /// Write nothing and go on reading: the trade was recorded.
    Continue,
    /// Write nothing and go on reading: the trade was not recorded, for this
    /// reason.
    Rejected(LedgerError),
    /// The lock or the record store is busy: hand the same request in again
    /// after a pause.
    Retry,
    /// Close the connection.
    Close,
}

/// An action as a mathematical value.
pub enum ActionView {
    Send(Seq<u8>),
    Continue,
    Rejected(LedgerError),
    Retry,
    Close,
}

impl View for Action {
    type V = ActionView;

    open spec fn view(&self) -> ActionView {
        match self {
            Action::Send(bytes) => ActionView::Send(bytes@),
            Action::Continue => ActionView::Continue,
            Action::Rejected(e) => ActionView::Rejected(*e),
            Action::Retry => ActionView::Retry,
            Action::Close => ActionView::Close,
        }
    }
}

/// The model of a session.
pub struct SessionState {
    /// The claim that the session holds, once it is authenticated.
    pub auth: Option<Claim>,
    /// How often a request that finds the lock or the record store busy may
    /// be told to try again before it is refused.
    pub budget: u32,
    /// How many of those are left for the request under way.
    pub left: u32,
    /// The session is over.
    pub closed: bool,
}

impl BookState {
    /// One whole trade by the holder: open, the three fields, flush. The
    /// first step that fails ends it.
    pub open spec fn trade(self, claim: Claim, sender: i32, recipient: i32, money: i32) -> (
        BookState,
        Result<(), LedgerError>,
    ) {
        let (opened, r0) = self.open_record(claim);
        if r0 is Err {
            (opened, r0)
        } else {
            let (b1, r1) = opened.stage(claim, Field::Sender(sender));
            if r1 is Err {
                (b1, r1)
            } else {
                let (b2, r2) = b1.stage(claim, Field::Recipient(recipient));
                if r2 is Err {
                    (b2, r2)
                } else {
                    let (b3, r3) = b2.stage(claim, Field::Money(money));
                    if r3 is Err {
                        (b3, r3)
                    } else {
                        b3.flush_record(claim)
                    }
                }
            }
        }
    }
}

impl SessionState {
    /// The claim that the session keeps is one that `book` handed out.
    pub open spec fn wf(self, book: BookState) -> bool {
        self.auth matches Some(claim) ==> book.issued(claim)
    }

    /// A session that was just accepted.
    pub open spec fn fresh(budget: u32) -> SessionState {
        SessionState { auth: None, budget, left: budget, closed: false }
    }

    /// The end of a session: its guard, if it holds one, is given back.
    pub open spec fn close(self, book: BookState) -> (SessionState, BookState) {
        (
            SessionState { auth: None, closed: true, ..self },
            match self.auth {
                Some(claim) => book.release(claim),
                None => book,
            },
        )
    }

    /// A protocol violation: the session ends and the connection is closed.
    pub open spec fn violation(self, book: BookState) -> (SessionState, BookState, ActionView) {
        (self.close(book).0, self.close(book).1, ActionView::Close)
    }

    /// A login request.
    pub open spec fn login(self, book: BookState, region: u8, password: Seq<char>) -> (
        SessionState,
        BookState,
        ActionView,
    ) {
        let (locked, outcome) = book.try_lock(region as i32, password);
        match outcome {
            Ok(claim) => (
                SessionState { auth: Some(claim), left: self.budget, ..self },
                match self.auth {
                    Some(earlier) => locked.release(earlier),
                    None => locked,
                },
                ActionView::Send(login_reply(true)),
            ),
            Err(LockError::Busy) => if self.left > 0 {
                (SessionState { left: (self.left - 1) as u32, ..self }, book, ActionView::Retry)
            } else {
                (
                    SessionState { left: self.budget, ..self },
                    book,
                    ActionView::Send(login_reply(false)),
                )
            },
            Err(LockError::NoSuchRegion) => self.violation(book),
            Err(_) => (
                SessionState { left: self.budget, ..self },
                book,
                ActionView::Send(login_reply(false)),
            ),
        }
    }

    /// What a request does to the session and the registry, and what the
    /// transport is to do next.
    pub open spec fn handle(self, book: BookState, request: RequestView) -> (
        SessionState,
        BookState,
        ActionView,
    ) {
        if self.closed {
            (self, book, ActionView::Close)
        } else {
            match request {
                RequestView::Login { region, password } => self.login(book, region, password),
                RequestView::Balance => match self.auth {
                    Some(claim) => match book.get_balance(claim) {
                        Ok(balance) => (self, book, ActionView::Send(le_i32(balance))),
                        Err(_) => self.violation(book),
                    },
                    None => self.violation(book),
                },
                RequestView::Trade { sender, recipient, money } => match self.auth {
                    Some(claim) => {
                        let (traded, outcome) = book.trade(claim, sender, recipient, money);
                        let rested = SessionState { left: self.budget, ..self };
                        match outcome {
                            Ok(_) => (rested, traded, ActionView::Continue),
                            Err(LedgerError::Busy) => if self.left > 0 {
                                (
                                    SessionState { left: (self.left - 1) as u32, ..self },
                                    traded,
                                    ActionView::Retry,
                                )
                            } else {
                                (rested, traded, ActionView::Rejected(LedgerError::Busy))
                            },
                            Err(e) => (rested, traded, ActionView::Rejected(e)),
                        }
                    },
                    None => self.violation(book),
                },
                RequestView::History { count } => match self.auth {
                    Some(claim) => match book.top_n_orders(claim, count as nat) {
                        Ok(orders) => (self, book, ActionView::Send(history_reply(orders))),
                        Err(_) => self.violation(book),
                    },
                    None => self.violation(book),
                },
            }
        }
    }
}

/// One connection's state.
#[derive(Debug)]
pub struct Session {
    auth: Option<AcquiredOrderServer>,
    budget: u32,
    left: u32,
    closed: bool,
}

impl View for Session {
    type V = SessionState;

    closed spec fn view(&self) -> SessionState {
        SessionState {
            auth: match self.auth {
                Some(guard) => Some(guard@),
                None => None,
            },
            budget: self.budget,
            left: self.left,
            closed: self.closed,
        }
    }
}

/// Runs one whole trade through `guard`: opens a record, sets its three
/// fields and flushes it. The first step that fails ends the trade.
pub fn run_trade(
    guard: &AcquiredOrderServer,
    book: &mut MasterOrderBook,
    sender: i32,
    recipient: i32,
    money: i32,
) -> (result: Result<(), LedgerError>)
    requires
        old(book).inv(),
    ensures
        final(book).inv(),
        final(book)@ == old(book)@.trade(guard@, sender, recipient, money).0,
        result == old(book)@.trade(guard@, sender, recipient, money).1,
{
    guard.open_record(book)?;
    guard.set_sender(book, sender)?;
    guard.set_recipient(book, recipient)?;
    guard.set_money(book, money)?;
    guard.flush_record(book)
}

impl Session {
    /// The session of a connection that was just accepted. A login that finds
    /// its lock busy, and a trade that finds the record store busy, is told
    /// to try again up to `budget` times.
    pub fn new(budget: u32) -> (session: Session)
        ensures
            session@ == SessionState::fresh(budget),
    {
        Session { auth: None, budget, left: budget, closed: false }
    }

    /// Whether the session holds a guard.
    pub fn is_authenticated(&self) -> (yes: bool)
        ensures
            yes == self@.auth is Some,
    {
        self.auth.is_some()
    }

    /// The region that the session is logged in to.
    pub fn region(&self) -> (region: Option<i32>)
        ensures
            region == match self@.auth {
                Some(claim) => Some(claim.region),
                None => None,
            },
    {
        match &self.auth {
            Some(guard) => Some(guard.region()),
            None => None,
        }
    }

    /// Whether the session is over.
    pub fn is_closed(&self) -> (yes: bool)
        ensures
            yes == self@.closed,
    {
        self.closed
    }

    /// Ends the session: whatever state it is in, the guard that it holds is
    /// given back. This is what the transport calls when the connection is
    /// lost or closed.
    pub fn disconnect(&mut self, book: &mut MasterOrderBook)
        requires
            old(book).inv(),
        ensures
            final(book).inv(),
            final(self)@ == old(self)@.close(old(book)@).0,
            final(book)@ == old(self)@.close(old(book)@).1,
    {
        let held = self.auth.take();
        self.closed = true;
        match held {
            Some(guard) => {
                guard.release(book);
            },
            None => {},
        }
    }

    /// Handles one request and says what the transport is to do next.
    pub fn handle(&mut self, book: &mut MasterOrderBook, request: &Request) -> (action: Action)
        requires
            old(book).inv(),
        ensures
            final(book).inv(),
            final(self)@ == old(self)@.handle(old(book)@, request@).0,
            final(book)@ == old(self)@.handle(old(book)@, request@).1,
            action@ == old(self)@.handle(old(book)@, request@).2,
    {
        if self.closed {
            return Action::Close;
        }
        match request {
            Request::Login { region, password } => self.login(book, *region, password.as_str()),
            Request::Balance => {
                let reading = match &self.auth {
                    Some(guard) => guard.get_balance(book),
                    None => Err(LedgerError::NotHolder),
                };
                match reading {
                    Ok(balance) => Action::Send(encode_balance(balance)),
                    Err(_) => {
                        self.disconnect(book);
                        Action::Close
                    },
                }
            },
            Request::Trade { sender, recipient, money } => {
                let outcome = match &self.auth {
                    Some(guard) => Some(run_trade(guard, book, *sender, *recipient, *money)),
                    None => None,
                };
                match outcome {
                    Some(Ok(_)) => {
                        self.left = self.budget;
                        Action::Continue
                    },
                    Some(Err(LedgerError::Busy)) => {
                        if self.left > 0 {
                            self.left = self.left - 1;
                            Action::Retry
                        } else {
                            self.left = self.budget;
                            Action::Rejected(LedgerError::Busy)
                        }
                    },
                    Some(Err(e)) => {
                        self.left = self.budget;
                        Action::Rejected(e)
                    },
                    None => {
                        self.disconnect(book);
                        Action::Close
                    },
                }
            },
            Request::History { count } => {
                let reading = match &self.auth {
                    Some(guard) => book.get_top_n_orders(guard, *count as usize),
                    None => Err(LedgerError::NotHolder),
                };
                match reading {
                    Ok(orders) => Action::Send(encode_history(&orders)),
                    Err(_) => {
                        self.disconnect(book);
                        Action::Close
                    },
                }
            },
        }
    }

    /// Handles a login request.
    fn login(&mut self, book: &mut MasterOrderBook, region: u8, password: &str) -> (action: Action)
        requires
            old(book).inv(),
            !old(self)@.closed,
        ensures
            final(book).inv(),
            final(self)@ == old(self)@.login(old(book)@, region, password@).0,
            final(book)@ == old(self)@.login(old(book)@, region, password@).1,
            action@ == old(self)@.login(old(book)@, region, password@).2,
    {
        match book.try_lock(region as i32, password) {
            Ok(guard) => {
                let earlier = self.auth.take();
                match earlier {
                    Some(held) => {
                        held.release(book);
                    },
                    None => {},
                }
                self.auth = Some(guard);
                self.left = self.budget;
                Action::Send(encode_login_reply(true))
            },
            Err(LockError::Busy) => {
                if self.left > 0 {
                    self.left = self.left - 1;
                    Action::Retry
                } else {
                    self.left = self.budget;
                    Action::Send(encode_login_reply(false))
                }
            },
            Err(LockError::NoSuchRegion) => {
                self.disconnect(book);
                Action::Close
            },
            Err(_) => {
                self.left = self.budget;
                Action::Send(encode_login_reply(false))
            },
        }
    }
}

/// A trade is all or nothing. It is recorded exactly when the claim holds its
/// region's lock, the ledger is idle and the record store is not busy; then
/// the region's ledger grows by exactly that order and is idle again. In
/// every other case the registry is as it was.
pub proof fn law_trade_all_or_nothing(
    book: BookState,
    claim: Claim,
    sender: i32,
    recipient: i32,
    money: i32,
)
    ensures
        ({
            let (after, outcome) = book.trade(claim, sender, recipient, money);
            &&& outcome is Ok <==> book.holds(claim) && book.regions[claim.region].draft is None
                && !book.busy
            &&& outcome is Err ==> after == book
            &&& outcome is Ok ==> after == book.with_region(
                claim.region,
                crate::laws::trade(book.regions[claim.region], claim.ticket, sender, recipient, money),
            )
        }),
{
    let (after, outcome) = book.trade(claim, sender, recipient, money);
    if book.holds(claim) {
        let region = claim.region;
        let (opened, r0) = book.open_record(claim);
        if r0 is Err {
            assert(opened.regions =~= book.regions);
        } else {
            let (b1, r1) = opened.stage(claim, Field::Sender(sender));
            let (b2, r2) = b1.stage(claim, Field::Recipient(recipient));
            let (b3, r3) = b2.stage(claim, Field::Money(money));
            let expected = book.with_region(
                region,
                crate::laws::trade(book.regions[region], claim.ticket, sender, recipient, money),
            );
            assert(after.regions =~= expected.regions);
        }
    }
}

/// A retry costs one of the session's retries and changes nothing else: the
/// registry is as it was, and so is the session but for the count.
pub proof fn law_retry_uses_budget(session: SessionState, book: BookState, request: RequestView)
    ensures
        session.handle(book, request).2 is Retry ==> {
            &&& session.left > 0
            &&& session.handle(book, request).0 == (SessionState {
                left: (session.left - 1) as u32,
                ..session
            })
            &&& session.handle(book, request).1 == book
        },
{
    match request {
        RequestView::Trade { sender, recipient, money } => {
            if session.auth is Some {
                law_trade_all_or_nothing(book, session.auth->0, sender, recipient, money);
            }
        },
        _ => {},
    }
}

/// The session after the same request was handed in `times` times in a row,
/// with nothing else happening to the registry in between.
pub open spec fn insisting(
    session: SessionState,
    book: BookState,
    request: RequestView,
    times: nat,
) -> (SessionState, BookState)
    decreases times,
{
    if times == 0 {
        (session, book)
    } else {
        let (earlier, registry) = insisting(session, book, request, (times - 1) as nat);
        (earlier.handle(registry, request).0, earlier.handle(registry, request).1)
    }
}

/// Retries are bounded. A request that is handed in again and again is told
/// to try again at most as often as the session has retries left; after that
/// it gets its answer.
pub proof fn law_retries_are_bounded(
    session: SessionState,
    book: BookState,
    request: RequestView,
    times: nat,
)
    requires
        forall|n: nat|
            n < times ==> (#[trigger] insisting(session, book, request, n)).0.handle(
                insisting(session, book, request, n).1,
                request,
            ).2 is Retry,
    ensures
        times <= session.left,
        insisting(session, book, request, times).0.left == session.left - times,
        insisting(session, book, request, times).1 == book,
    decreases times,
{
    if times > 0 {
        let n = (times - 1) as nat;
        law_retries_are_bounded(session, book, request, n);
        let (earlier, registry) = insisting(session, book, request, n);
        law_retry_uses_budget(earlier, registry, request);
    }
}

/// A session that ends holds nothing: after `disconnect`, and after any
/// request that closes the connection, the claim that the session held is not
/// the holder of its region's lock.
pub proof fn law_closed_session_holds_nothing(
    session: SessionState,
    book: BookState,
    request: RequestView,
)
    ensures
        session.auth matches Some(claim) ==> !session.close(book).1.holds(claim),
        session.close(book).0.auth is None,
        !session.closed && session.handle(book, request).2 is Close ==> {
            &&& session.handle(book, request).0.closed
            &&& session.handle(book, request).0.auth is None
            &&& session.auth matches Some(claim) ==> !session.handle(book, request).1.holds(claim)
        },
{
}

/// Before a login succeeds, the only request that is answered is a login:
/// every other request ends the session without a reply.
pub proof fn law_unauthenticated_requests_close(
    session: SessionState,
    book: BookState,
    request: RequestView,
)
    requires
        session.auth is None,
        !(request is Login),
    ensures
        session.handle(book, request).2 is Close,
        session.handle(book, request).1 == book,
{
}

/// Handling a request keeps the registry well formed, and the claim that the
/// session keeps afterwards is again one that the registry handed out.
pub proof fn law_handle_keeps_session_sound(
    session: SessionState,
    book: BookState,
    request: RequestView,
)
    requires
        book.wf(),
        session.wf(book),
    ensures
        session.handle(book, request).1.wf(),
        session.handle(book, request).0.wf(session.handle(book, request).1),
        session.close(book).1.wf(),
        session.close(book).0.wf(session.close(book).1),
{
    let (after, registry, action) = session.handle(book, request);
    match request {
        RequestView::Trade { sender, recipient, money } => {
            if session.auth is Some && !session.closed {
                law_trade_all_or_nothing(book, session.auth->0, sender, recipient, money);
            }
        },
        _ => {},
    }
}

/// A login is granted, with the reply byte 1, exactly when the region is
/// open, its lock is free, the password is the region's and a ticket is
/// left. A login that is refused leaves the session as authenticated as it
/// was, and the registry untouched.
pub proof fn law_login_reply(session: SessionState, book: BookState, region: u8, password: Seq<char>)
    requires
        book.wf(),
        session.wf(book),
        !session.closed,
    ensures
        ({
            let request = RequestView::Login { region, password };
            let (after, registry, action) = session.handle(book, request);
            &&& action == ActionView::Send(login_reply(true)) <==> book.try_lock(
                region as i32,
                password,
            ).1 is Ok
            &&& action == ActionView::Send(login_reply(true)) ==> after.auth == Some(
                book.try_lock(region as i32, password).1->Ok_0,
            ) && registry.holds(after.auth->0)
            &&& action == ActionView::Send(login_reply(false)) ==> after.auth == session.auth
                && registry == book
            &&& action is Retry ==> after.auth == session.auth && registry == book && after.left
                < session.left
        }),
{
    let request = RequestView::Login { region, password };
    let (after, registry, action) = session.handle(book, request);
    assert(login_reply(true) != login_reply(false)) by {
        assert(login_reply(true)[0] != login_reply(false)[0]);
    }
}

} // verus!
