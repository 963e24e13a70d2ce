//! What holds of a region's lock and ledger over every history.
//!
//! The operations of a server are transitions of `ServerState`. A history is
//! a sequence of such operations, by whatever callers, in whatever order they
//! reach the server. The theorems here are stated over all histories.

use vstd::prelude::*;
use crate::book::BookState;
use crate::ledger::{committed, effect, reported, total_push, window, window_len, Order};
use crate::server::{Claim, Draft, Field, LedgerError, LockError, ServerState};

verus! {

/// One operation that reaches a server.
pub enum Event {
    /// An attempt to take the lock with a password.
    TryLock(Seq<char>),
    /// The release of the guard with this ticket.
    Release(u64),
    /// `open_record` through the guard with this ticket, with the record
    /// store busy or not.
    OpenRecord(u64, bool),
    /// Setting a field through the guard with this ticket.
    Stage(u64, Field),
    /// `flush_record` through the guard with this ticket.
    Flush(u64),
}

/// The server after one operation.
pub open spec fn step(s: ServerState, e: Event) -> ServerState {
    match e {
        Event::TryLock(password) => s.try_lock(password).0,
        Event::Release(ticket) => s.release(ticket),
        Event::OpenRecord(ticket, busy) => s.open_record(ticket, busy).0,
        Event::Stage(ticket, field) => s.stage(ticket, field).0,
        Event::Flush(ticket) => s.flush_record(ticket).0,
    }
}

/// The server after a history.
pub open spec fn run(s: ServerState, history: Seq<Event>) -> ServerState
    decreases history.len(),
{
    if history.len() == 0 {
        s
    } else {
        step(run(s, history.drop_last()), history.last())
    }
}

/// The tickets that were handed out and not given back yet: the holder at the
/// start, plus every ticket that an attempt in the history was granted, minus
/// every ticket that a later release in the history gave back.
pub open spec fn outstanding(s: ServerState, history: Seq<Event>) -> Set<u64>
    decreases history.len(),
{
    if history.len() == 0 {
        match s.holder {
            Some(ticket) => set![ticket],
            None => Set::empty(),
        }
    } else {
        let earlier = outstanding(s, history.drop_last());
        let before = run(s, history.drop_last());
        match history.last() {
            Event::TryLock(password) => match before.try_lock(password).1 {
                Ok(ticket) => earlier.insert(ticket),
                Err(_) => earlier,
            },
            Event::Release(ticket) => earlier.remove(ticket),
            _ => earlier,
        }
    }
}

/// The fields that a sequence of `set_*` calls leaves in a record that was
/// opened just before them.
pub open spec fn staged(sets: Seq<Field>) -> Draft
    decreases sets.len(),
{
    if sets.len() == 0 {
        Draft::blank()
    } else {
        staged(sets.drop_last()).with(sets.last())
    }
}

/// The server after the holder made a sequence of `set_*` calls.
pub open spec fn stage_all(s: ServerState, ticket: u64, sets: Seq<Field>) -> ServerState
    decreases sets.len(),
{
    if sets.len() == 0 {
        s
    } else {
        stage_all(s, ticket, sets.drop_last()).stage(ticket, sets.last()).0
    }
}

/// Every operation keeps a well-formed server well formed, never takes a
/// ticket back, and changes neither the region's identity nor its password.
pub proof fn law_step_keeps_server_sound(s: ServerState, e: Event)
    requires
        s.wf(),
    ensures
        step(s, e).wf(),
        step(s, e).issued >= s.issued,
        step(s, e).id == s.id,
        step(s, e).name == s.name,
        step(s, e).secret == s.secret,
{
}

/// Every history keeps a well-formed server well formed.
pub proof fn law_run_keeps_server_sound(s: ServerState, history: Seq<Event>)
    requires
        s.wf(),
    ensures
        run(s, history).wf(),
        run(s, history).issued >= s.issued,
        run(s, history).id == s.id,
        run(s, history).name == s.name,
        run(s, history).secret == s.secret,
    decreases history.len(),
{
    if history.len() > 0 {
        law_run_keeps_server_sound(s, history.drop_last());
        law_step_keeps_server_sound(run(s, history.drop_last()), history.last());
    }
}

/// Committed orders are immutable. No operation changes or removes an order
/// that was committed before it: the history only grows, at its end, by the
/// orders that are flushed.
pub proof fn law_history_only_grows(s: ServerState, history: Seq<Event>)
    ensures
        s.records.len() <= run(s, history).records.len(),
        run(s, history).records.subrange(0, s.records.len() as int) == s.records,
    decreases history.len(),
{
    if history.len() > 0 {
        law_history_only_grows(s, history.drop_last());
        let before = run(s, history.drop_last());
        let after = run(s, history);
        assert(before.records.len() <= after.records.len());
        assert(after.records.subrange(0, before.records.len() as int) =~= before.records);
        assert(after.records.subrange(0, s.records.len() as int) =~= before.records.subrange(
            0,
            s.records.len() as int,
        ));
    } else {
        assert(s.records.subrange(0, s.records.len() as int) =~= s.records);
    }
}

/// Mutual exclusion, for two attempts. Of two attempts on the same lock with
/// nothing in between, at most one is granted: once the first is, the second
/// is told `Busy` and changes nothing, whatever password it brings.
pub proof fn law_second_attempt_is_busy(s: ServerState, first: Seq<char>, second: Seq<char>)
    ensures
        s.try_lock(first).1 is Ok ==> {
            &&& s.try_lock(first).0.try_lock(second).1 == Err::<u64, LockError>(LockError::Busy)
            &&& s.try_lock(first).0.try_lock(second).0 == s.try_lock(first).0
        },
{
}

/// Mutual exclusion, at every instant. An attempt is granted only on a free
/// lock with the region's password, and is told `Busy` exactly when the lock
/// is held, and `Denied` exactly when it is free and the password is wrong.
pub proof fn law_attempt_outcomes(s: ServerState, password: Seq<char>)
    ensures
        s.try_lock(password).1 is Ok ==> s.holder is None && password == s.secret,
        s.try_lock(password).1 == Err::<u64, LockError>(LockError::Busy) <==> s.holder is Some,
        s.try_lock(password).1 == Err::<u64, LockError>(LockError::Denied) <==> s.holder is None
            && password != s.secret,
        s.try_lock(password).1 matches Ok(ticket) ==> s.try_lock(password).0.holds(ticket),
        s.try_lock(password).1 is Err ==> s.try_lock(password).0 == s,
{
}

/// Mutual exclusion, over every history. The tickets that were handed out and
/// not given back are exactly what the claimant slot holds: none, or one. So
/// no two acquisitions ever overlap in time.
pub proof fn law_grants_never_overlap(s: ServerState, history: Seq<Event>)
    ensures
        outstanding(s, history) == match run(s, history).holder {
            Some(ticket) => set![ticket],
            None => Set::<u64>::empty(),
        },
        outstanding(s, history).finite(),
        outstanding(s, history).len() <= 1,
    decreases history.len(),
{
    if history.len() > 0 {
        law_grants_never_overlap(s, history.drop_last());
    }
    let now = match run(s, history).holder {
        Some(ticket) => set![ticket],
        None => Set::<u64>::empty(),
    };
    assert(outstanding(s, history) =~= now);
}

/// At any instant, two claims that both hold the lock of one region are the
/// same claim.
pub proof fn law_one_holder_per_region(book: BookState, a: Claim, b: Claim)
    requires
        book.holds(a),
        book.holds(b),
        a.region == b.region,
    ensures
        a == b,
{
}

/// A ticket that does not hold the lock changes nothing by any operation: the
/// ledger can be written through the current holder's guard only.
pub proof fn law_only_holder_writes(s: ServerState, ticket: u64, busy: bool, field: Field)
    requires
        !s.holds(ticket),
    ensures
        s.open_record(ticket, busy) == (s, Err::<(), LedgerError>(LedgerError::NotHolder)),
        s.stage(ticket, field) == (s, Err::<(), LedgerError>(LedgerError::NotHolder)),
        s.flush_record(ticket) == (s, Err::<(), LedgerError>(LedgerError::NotHolder)),
        s.release(ticket) == s,
{
}

/// Guaranteed release. Whatever the holder did to the ledger, a record left
/// open included, its release frees the lock, and the next attempt with the
/// region's password is granted as long as a ticket is left.
pub proof fn law_release_frees(s: ServerState, ticket: u64, work: Seq<Event>)
    requires
        s.wf(),
        s.holds(ticket),
        forall|i: int|
            0 <= i < work.len() ==> !(#[trigger] work[i] is TryLock) && !(work[i] is Release),
    ensures
        run(s, work).holds(ticket),
        run(s, work).release(ticket).holder is None,
        run(s, work).release(ticket).wf(),
        s.issued < u64::MAX ==> run(s, work).release(ticket).try_lock(s.secret).1 is Ok,
{
    law_held_lock_issues_nothing(s, work);
}

/// While nobody attempts or releases, no ticket is handed out and the
/// claimant slot stays as it is.
pub proof fn law_held_lock_issues_nothing(s: ServerState, work: Seq<Event>)
    requires
        forall|i: int|
            0 <= i < work.len() ==> !(#[trigger] work[i] is TryLock) && !(work[i] is Release),
    ensures
        run(s, work).issued == s.issued,
        run(s, work).holder == s.holder,
        run(s, work).secret == s.secret,
    decreases work.len(),
{
    if work.len() > 0 {
        assert(!(work[work.len() - 1] is TryLock) && !(work[work.len() - 1] is Release));
        assert forall|i: int| 0 <= i < work.drop_last().len() implies !(
        #[trigger] work.drop_last()[i] is TryLock) && !(work.drop_last()[i] is Release) by {
            assert(work.drop_last()[i] == work[i]);
        }
        law_held_lock_issues_nothing(s, work.drop_last());
    }
}

/// Release on the registry: the holder's release frees its region, leaves
/// every other region alone, and the claim holds nothing afterwards.
pub proof fn law_release_frees_region(book: BookState, claim: Claim)
    requires
        book.holds(claim),
    ensures
        book.release(claim).regions.contains_key(claim.region),
        book.release(claim).regions[claim.region].holder is None,
        !book.release(claim).holds(claim),
        forall|other: i32|
            other != claim.region ==> (#[trigger] book.release(claim).regions.contains_key(other)
                <==> book.regions.contains_key(other)),
        forall|other: i32|
            other != claim.region && book.regions.contains_key(other) ==> (
            #[trigger] book.release(claim).regions[other]) == book.regions[other],
{
}

/// Commit atomicity. After a record was opened, a flush commits exactly when
/// each of the three fields was set since then, and what it commits is made
/// of the values set last since then and of nothing else. Where a field is
/// missing, the flush fails with `Incomplete`, commits nothing and leaves the
/// record open.
pub proof fn law_flush_commits_current_cycle(s: ServerState, ticket: u64, sets: Seq<Field>)
    requires
        s.holds(ticket),
        s.draft is None,
    ensures
        ({
            let opened = s.open_record(ticket, false).0;
            let filled = stage_all(opened, ticket, sets);
            let (flushed, outcome) = filled.flush_record(ticket);
            &&& s.open_record(ticket, false).1 is Ok
            &&& filled.draft == Some(staged(sets))
            &&& filled.records == s.records
            &&& outcome is Ok <==> staged(sets).complete()
            &&& outcome is Ok ==> flushed.records == s.records.push(staged(sets).order(s.id))
                && flushed.draft is None
            &&& outcome is Err ==> outcome == Err::<(), LedgerError>(LedgerError::Incomplete)
                && flushed == filled
        }),
    decreases sets.len(),
{
    let opened = s.open_record(ticket, false).0;
    law_staging_keeps_holder(opened, ticket, sets);
    if sets.len() > 0 {
        law_flush_commits_current_cycle(s, ticket, sets.drop_last());
        law_staging_keeps_holder(opened, ticket, sets.drop_last());
        let earlier = stage_all(opened, ticket, sets.drop_last());
        assert(earlier.holds(ticket));
        assert(earlier.draft == Some(staged(sets.drop_last())));
        assert(stage_all(opened, ticket, sets) == earlier.stage(ticket, sets.last()).0);
    }
}

/// Setting fields changes neither the claimant slot nor the ledger.
pub proof fn law_staging_keeps_holder(s: ServerState, ticket: u64, sets: Seq<Field>)
    ensures
        stage_all(s, ticket, sets).holder == s.holder,
        stage_all(s, ticket, sets).records == s.records,
        stage_all(s, ticket, sets).id == s.id,
    decreases sets.len(),
{
    if sets.len() > 0 {
        law_staging_keeps_holder(s, ticket, sets.drop_last());
    }
}

/// A field that was never set since the record was opened is missing: no
/// value from an earlier record can stand in for it.
pub proof fn law_unset_field_is_missing(sets: Seq<Field>)
    ensures
        staged(sets).sender is Some <==> exists|i: int|
            0 <= i < sets.len() && #[trigger] sets[i] is Sender,
        staged(sets).recipient is Some <==> exists|i: int|
            0 <= i < sets.len() && #[trigger] sets[i] is Recipient,
        staged(sets).money is Some <==> exists|i: int|
            0 <= i < sets.len() && #[trigger] sets[i] is Money,
    decreases sets.len(),
{
    if sets.len() > 0 {
        let earlier = sets.drop_last();
        let last = sets.len() - 1;
        law_unset_field_is_missing(earlier);
        assert forall|i: int| 0 <= i < earlier.len() implies earlier[i] == sets[i] by {}
        if staged(sets).sender is Some {
            if sets[last] is Sender {
            } else {
                let i = choose|i: int| 0 <= i < earlier.len() && #[trigger] earlier[i] is Sender;
                assert(sets[i] is Sender);
            }
        }
        if exists|i: int| 0 <= i < sets.len() && #[trigger] sets[i] is Sender {
            let i = choose|i: int| 0 <= i < sets.len() && #[trigger] sets[i] is Sender;
            if i < last {
                assert(earlier[i] is Sender);
            }
        }
        if staged(sets).recipient is Some {
            if sets[last] is Recipient {
            } else {
                let i = choose|i: int| 0 <= i < earlier.len() && #[trigger] earlier[i] is Recipient;
                assert(sets[i] is Recipient);
            }
        }
        if exists|i: int| 0 <= i < sets.len() && #[trigger] sets[i] is Recipient {
            let i = choose|i: int| 0 <= i < sets.len() && #[trigger] sets[i] is Recipient;
            if i < last {
                assert(earlier[i] is Recipient);
            }
        }
        if staged(sets).money is Some {
            if sets[last] is Money {
            } else {
                let i = choose|i: int| 0 <= i < earlier.len() && #[trigger] earlier[i] is Money;
                assert(sets[i] is Money);
            }
        }
        if exists|i: int| 0 <= i < sets.len() && #[trigger] sets[i] is Money {
            let i = choose|i: int| 0 <= i < sets.len() && #[trigger] sets[i] is Money;
            if i < last {
                assert(earlier[i] is Money);
            }
        }
    }
}

/// The server after the holder ran one whole trade on it: open, the three
/// fields, flush.
pub open spec fn trade(s: ServerState, ticket: u64, sender: i32, recipient: i32, money: i32)
    -> ServerState {
    s.open_record(ticket, false).0.stage(ticket, Field::Sender(sender)).0.stage(
        ticket,
        Field::Recipient(recipient),
    ).0.stage(ticket, Field::Money(money)).0.flush_record(ticket).0
}

/// Balance and history agree. After a trade was flushed, the most recent
/// order of the region is that trade, every history query for at least one
/// order ends with it, the running total has moved by the trade's effect, and
/// the balance that the holder reads is that total.
pub proof fn law_trade_shows_in_history_and_balance(
    s: ServerState,
    ticket: u64,
    sender: i32,
    recipient: i32,
    money: i32,
    n: nat,
)
    requires
        s.holds(ticket),
        s.draft is None,
        n >= 1,
    ensures
        ({
            let after = trade(s, ticket, sender, recipient, money);
            let order = committed(sender, recipient, money, s.id);
            &&& after.records == s.records.push(order)
            &&& after.draft is None
            &&& after.holds(ticket)
            &&& window(after.records, 1) == seq![order]
            &&& after.top_n_orders(ticket, n) is Ok
            &&& after.top_n_orders(ticket, n)->Ok_0.last() == order
            &&& after.balance() == s.balance() + effect(order, s.id as int)
            &&& after.get_balance(ticket) == Ok::<i32, LedgerError>(reported(after.balance()))
        }),
{
    let after = trade(s, ticket, sender, recipient, money);
    let order = committed(sender, recipient, money, s.id);
    total_push(s.records, order, s.id as int);
    assert(window(after.records, 1) =~= seq![order]);
}

/// The shape of a history query: as many orders as were asked for, or all of
/// them where there are fewer; in the order in which they were committed; the
/// most recent one last.
pub proof fn law_window_shape(records: Seq<Order>, n: nat)
    ensures
        window(records, n).len() == window_len(records, n),
        window(records, n).len() == if n <= records.len() {
            n
        } else {
            records.len()
        },
        forall|i: int|
            0 <= i < window(records, n).len() ==> #[trigger] window(records, n)[i] == records[
                records.len() - window(records, n).len() + i],
        n > 0 && records.len() > 0 ==> window(records, n).last() == records.last(),
{
}

/// Idempotent teardown. Releasing the same ticket again changes nothing, and
/// a release never breaks the claimant slot.
pub proof fn law_release_idempotent(s: ServerState, ticket: u64)
    requires
        s.wf(),
    ensures
        s.release(ticket).release(ticket) == s.release(ticket),
        s.release(ticket).wf(),
        !s.release(ticket).holds(ticket),
        s.release(ticket).holder is Some ==> s.release(ticket).holder == s.holder,
{
}

/// A ticket that was given back never holds the lock again, whatever cycles
/// of acquisition and release follow: a late second release can free nobody
/// else's lock.
pub proof fn law_released_ticket_stays_released(s: ServerState, ticket: u64, history: Seq<Event>)
    requires
        s.wf(),
        ticket < s.issued,
        !s.holds(ticket),
    ensures
        !run(s, history).holds(ticket),
        run(s, history).release(ticket) == run(s, history),
    decreases history.len(),
{
    if history.len() > 0 {
        let earlier = history.drop_last();
        law_released_ticket_stays_released(s, ticket, earlier);
        law_run_keeps_server_sound(s, earlier);
    }
}

/// The server after `count` cycles of taking the lock with the region's
/// password and giving it back.
pub open spec fn cycles(s: ServerState, count: nat) -> ServerState
    decreases count,
{
    if count == 0 {
        s
    } else {
        let before = cycles(s, (count - 1) as nat);
        let (held, outcome) = before.try_lock(before.secret);
        match outcome {
            Ok(ticket) => held.release(ticket),
            Err(_) => held,
        }
    }
}

/// Any number of cycles of acquisition and release leaves the lock free and
/// well formed, with one ticket used per cycle and the ledger untouched.
pub proof fn law_cycles_leave_lock_free(s: ServerState, count: nat)
    requires
        s.wf(),
        s.holder is None,
        s.issued + count <= u64::MAX,
    ensures
        cycles(s, count).wf(),
        cycles(s, count).holder is None,
        cycles(s, count).issued == s.issued + count,
        cycles(s, count).records == s.records,
        cycles(s, count).draft == s.draft,
    decreases count,
{
    if count > 0 {
        law_cycles_leave_lock_free(s, (count - 1) as nat);
    }
}

} // verus!
