//! Many sessions over one registry.
//!
//! The server runs one session per connection, all of them over the same
//! registry, and takes their steps one at a time. A `Desk` is that whole: the
//! registry and every session. What is proved here holds after any number of
//! steps of any sessions in any order: every authenticated session is the
//! holder of its region's lock, no two sessions are on the same region, a
//! login to a region that some session is on is never granted, and a session
//! that ends leaves its region free.

use vstd::prelude::*;
use crate::book::BookState;
use crate::server::{Claim, LockError};
use crate::session::{ActionView, SessionState};
use crate::wire::{login_reply, RequestView};

verus! {

/// The registry and the sessions that run over it.
pub struct Desk {
    pub book: BookState,
    pub sessions: Seq<SessionState>,
}

/// One step of the server.
pub enum Move {
    /// A connection is accepted: a session starts, with this budget of login
    /// retries.
    Accept(u32),
    /// The session with this number handles this request.
    Handle(int, RequestView),
    /// The session with this number loses or closes its connection.
    Disconnect(int),
}

impl Desk {
    /// Every guard in a session's hands is the holder of its region's lock,
    /// and no two sessions have a guard of the same region.
    pub open spec fn sound(self) -> bool {
        &&& self.book.wf()
        &&& forall|i: int|
            0 <= i < self.sessions.len() ==> ((#[trigger] self.sessions[i]).auth matches Some(
                claim,
            ) ==> self.book.holds(claim))
        &&& forall|i: int, j: int|
            0 <= i < self.sessions.len() && 0 <= j < self.sessions.len() && i != j && (
            #[trigger] self.sessions[i]).auth is Some && (#[trigger] self.sessions[j]).auth is Some
                ==> self.sessions[i].auth->0.region != self.sessions[j].auth->0.region
    }

    /// The desk after one step.
    pub open spec fn step(self, m: Move) -> Desk {
        match m {
            Move::Accept(budget) => Desk {
                sessions: self.sessions.push(SessionState::fresh(budget)),
                ..self
            },
            Move::Handle(i, request) => if 0 <= i < self.sessions.len() {
                let (session, book, _) = self.sessions[i].handle(self.book, request);
                Desk { book, sessions: self.sessions.update(i, session) }
            } else {
                self
            },
            Move::Disconnect(i) => if 0 <= i < self.sessions.len() {
                let (session, book) = self.sessions[i].close(self.book);
                Desk { book, sessions: self.sessions.update(i, session) }
            } else {
                self
            },
        }
    }

    /// The desk after a sequence of steps.
    pub open spec fn run(self, moves: Seq<Move>) -> Desk
        decreases moves.len(),
    {
        if moves.len() == 0 {
            self
        } else {
            self.run(moves.drop_last()).step(moves.last())
        }
    }
}

/// What one session's step does to a guard in somebody else's hands: nothing.
/// A claim of another region that held before holds afterwards, and the
/// session does not end up on that region.
pub proof fn law_step_leaves_other_holders_alone(
    session: SessionState,
    book: BookState,
    request: RequestView,
    other: Claim,
)
    requires
        book.wf(),
        session.auth matches Some(claim) ==> book.holds(claim),
        book.holds(other),
        session.auth matches Some(claim) ==> claim.region != other.region,
    ensures
        session.handle(book, request).1.holds(other),
        session.handle(book, request).0.auth matches Some(claim) ==> claim.region != other.region,
        session.close(book).1.holds(other),
{
    match request {
        RequestView::Trade { sender, recipient, money } => {
            if session.auth is Some {
                crate::session::law_trade_all_or_nothing(
                    book,
                    session.auth->0,
                    sender,
                    recipient,
                    money,
                );
            }
        },
        _ => {},
    }
}

/// What one session's step does to the guard in its own hands: afterwards
/// the session either has no guard, or has one that holds.
pub proof fn law_step_keeps_own_guard_valid(
    session: SessionState,
    book: BookState,
    request: RequestView,
)
    requires
        book.wf(),
        session.auth matches Some(claim) ==> book.holds(claim),
    ensures
        session.handle(book, request).1.wf(),
        session.handle(book, request).0.auth matches Some(claim) ==> session.handle(
            book,
            request,
        ).1.holds(claim),
        session.close(book).1.wf(),
        session.close(book).0.auth is None,
{
    match request {
        RequestView::Trade { sender, recipient, money } => {
            if session.auth is Some {
                crate::session::law_trade_all_or_nothing(
                    book,
                    session.auth->0,
                    sender,
                    recipient,
                    money,
                );
            }
        },
        _ => {},
    }
}

/// A session writes to its own region only. Whatever a session's step is,
/// the ledger of every region that the session was not on before the step is
/// as it was, and the ledger of the region that it was on has grown by at
/// most the one order of its trade.
pub proof fn law_step_writes_own_ledger_only(
    session: SessionState,
    book: BookState,
    request: RequestView,
    region: i32,
)
    requires
        book.wf(),
        session.auth matches Some(claim) ==> book.holds(claim),
        book.regions.contains_key(region),
    ensures
        ({
            let after = session.handle(book, request).1;
            let before = book.regions[region].records;
            &&& after.regions.contains_key(region)
            &&& session.close(book).1.regions.contains_key(region)
            &&& session.close(book).1.regions[region].records == before
            &&& !(session.auth matches Some(claim) && claim.region == region)
                ==> after.regions[region].records == before
            &&& after.regions[region].records == before || (request matches RequestView::Trade {
                sender,
                recipient,
                money,
            } && after.regions[region].records == before.push(
                crate::ledger::committed(sender, recipient, money, region),
            ))
        }),
{
    match request {
        RequestView::Trade { sender, recipient, money } => {
            if session.auth is Some {
                crate::session::law_trade_all_or_nothing(
                    book,
                    session.auth->0,
                    sender,
                    recipient,
                    money,
                );
            }
        },
        _ => {},
    }
}

/// One step keeps a sound desk sound.
pub proof fn law_step_keeps_desk_sound(desk: Desk, m: Move)
    requires
        desk.sound(),
    ensures
        desk.step(m).sound(),
{
    let after = desk.step(m);
    match m {
        Move::Accept(budget) => {
            assert forall|i: int| 0 <= i < after.sessions.len() implies ((
            #[trigger] after.sessions[i]).auth matches Some(claim) ==> after.book.holds(claim)) by {
                if i < desk.sessions.len() {
                    assert(after.sessions[i] == desk.sessions[i]);
                }
            }
            assert forall|i: int, j: int|
                0 <= i < after.sessions.len() && 0 <= j < after.sessions.len() && i != j && (
                #[trigger] after.sessions[i]).auth is Some && (
                #[trigger] after.sessions[j]).auth is Some implies after.sessions[i].auth->0.region
                != after.sessions[j].auth->0.region by {
                assert(after.sessions[i] == desk.sessions[i]);
                assert(after.sessions[j] == desk.sessions[j]);
            }
        },
        Move::Handle(k, request) => {
            if 0 <= k < desk.sessions.len() {
                let mover = desk.sessions[k];
                law_step_keeps_own_guard_valid(mover, desk.book, request);
                assert forall|i: int| 0 <= i < after.sessions.len() implies ((
                #[trigger] after.sessions[i]).auth matches Some(claim) ==> after.book.holds(
                    claim,
                )) by {
                    if i != k && desk.sessions[i].auth is Some {
                        law_step_leaves_other_holders_alone(
                            mover,
                            desk.book,
                            request,
                            desk.sessions[i].auth->0,
                        );
                    }
                }
                assert forall|i: int, j: int|
                    0 <= i < after.sessions.len() && 0 <= j < after.sessions.len() && i != j && (
                    #[trigger] after.sessions[i]).auth is Some && (
                    #[trigger] after.sessions[j]).auth is Some implies after.sessions[i].auth->0.region
                    != after.sessions[j].auth->0.region by {
                    if i == k {
                        law_step_leaves_other_holders_alone(
                            mover,
                            desk.book,
                            request,
                            desk.sessions[j].auth->0,
                        );
                    } else if j == k {
                        law_step_leaves_other_holders_alone(
                            mover,
                            desk.book,
                            request,
                            desk.sessions[i].auth->0,
                        );
                    }
                }
            }
        },
        Move::Disconnect(k) => {
            if 0 <= k < desk.sessions.len() {
                let mover = desk.sessions[k];
                law_step_keeps_own_guard_valid(mover, desk.book, RequestView::Balance);
                assert forall|i: int| 0 <= i < after.sessions.len() implies ((
                #[trigger] after.sessions[i]).auth matches Some(claim) ==> after.book.holds(
                    claim,
                )) by {
                    if i != k && desk.sessions[i].auth is Some {
                        law_step_leaves_other_holders_alone(
                            mover,
                            desk.book,
                            RequestView::Balance,
                            desk.sessions[i].auth->0,
                        );
                    }
                }
            }
        },
    }
}

/// Mutual exclusion, for the whole server. Whatever the sessions do, in
/// whatever order: every authenticated session is the holder of its region's
/// lock, and no two sessions are on the same region.
pub proof fn law_desk_stays_sound(desk: Desk, moves: Seq<Move>)
    requires
        desk.sound(),
    ensures
        desk.run(moves).sound(),
    decreases moves.len(),
{
    if moves.len() > 0 {
        law_desk_stays_sound(desk, moves.drop_last());
        law_step_keeps_desk_sound(desk.run(moves.drop_last()), moves.last());
    }
}

/// A registry on which nobody holds anything, with no session yet, is a
/// sound desk to start from.
pub proof fn law_empty_desk_is_sound(book: BookState)
    requires
        book.wf(),
    ensures
        (Desk { book, sessions: Seq::empty() }).sound(),
{
}

/// On a sound desk, a login to a region that another session is on is never
/// granted: the session that asks is told to try again, or is refused, and
/// the session that is on the region stays its holder.
pub proof fn law_login_to_a_held_region_is_refused(
    desk: Desk,
    holder: int,
    asker: int,
    password: Seq<char>,
)
    requires
        desk.sound(),
        0 <= holder < desk.sessions.len(),
        0 <= asker < desk.sessions.len(),
        holder != asker,
        desk.sessions[holder].auth is Some,
        0 <= desk.sessions[holder].auth->0.region < 256,
        !desk.sessions[asker].closed,
    ensures
        ({
            let claim = desk.sessions[holder].auth->0;
            let request = RequestView::Login { region: claim.region as u8, password };
            let (session, book, action) = desk.sessions[asker].handle(desk.book, request);
            &&& desk.book.try_lock(claim.region, password).1 == Err::<Claim, LockError>(
                LockError::Busy,
            )
            &&& action is Retry || action == ActionView::Send(login_reply(false))
            &&& session.auth == desk.sessions[asker].auth
            &&& book == desk.book
            &&& book.holds(claim)
        }),
{
}

/// Guaranteed release, for the whole server. When a session ends, however it
/// ends, the region that it was on is free, and the session holds nothing.
pub proof fn law_ended_session_frees_its_region(desk: Desk, i: int)
    requires
        desk.sound(),
        0 <= i < desk.sessions.len(),
        desk.sessions[i].auth is Some,
    ensures
        ({
            let claim = desk.sessions[i].auth->0;
            let after = desk.step(Move::Disconnect(i));
            &&& after.sessions[i].auth is None
            &&& after.sessions[i].closed
            &&& after.book.regions.contains_key(claim.region)
            &&& after.book.regions[claim.region].holder is None
            &&& after.sound()
        }),
{
    law_step_keeps_desk_sound(desk, Move::Disconnect(i));
}

} // verus!
