//! What the holder of a region's lock can do.
//!
//! Every operation on a ledger goes through the guard that a successful
//! `try_lock` handed out, and is refused with `NotHolder`, changing nothing,
//! unless that guard is the current holder of its region's lock. Reading goes
//! the same way: there is no path to a ledger that bypasses the lock.
//!
//! A guard is given back by `release`, which uses it up. `with_lock` does
//! both ends for its caller: it takes the lock, runs the caller's work with
//! the guard, and gives the lock back when the work is done.

use vstd::prelude::*;
use crate::book::MasterOrderBook;
use crate::server::{AcquiredOrderServer, Claim, Field, LedgerError, LockError};

verus! {

impl MasterOrderBook {
    /// Takes the lock of `region` for as long as `work` runs, and gives it
    /// back when `work` is done, whatever `work` did. Where the lock cannot
    /// be taken, `work` does not run, nothing changes, and the error is the
    /// one of `try_lock`.
    pub fn with_lock<R, F>(&mut self, region: i32, password: &str, work: F) -> (outcome: Result<
        R,
        LockError,
    >) where F: FnOnce(&AcquiredOrderServer, &mut MasterOrderBook) -> R
        requires
            old(self).inv(),
            forall|guard: &AcquiredOrderServer, book: &mut MasterOrderBook|
                book.inv() ==> #[trigger] work.requires((guard, book)),
            forall|guard: &AcquiredOrderServer, book: &mut MasterOrderBook, result: R| #[trigger]
                work.ensures((guard, book), result) ==> final(book).inv(),
        ensures
            final(self).inv(),
            match outcome {
                Err(e) => old(self)@.try_lock(region, password@).1 == Err::<Claim, LockError>(e)
                    && final(self)@ == old(self)@,
                Ok(_) => old(self)@.try_lock(region, password@).1 is Ok && !final(self)@.holds(
                    old(self)@.try_lock(region, password@).1->Ok_0,
                ),
            },
    {
        match self.try_lock(region, password) {
            Err(e) => Err(e),
            Ok(guard) => {
                let result = work(&guard, self);
                guard.release(self);
                Ok(result)
            },
        }
    }
}

impl AcquiredOrderServer {
    /// Whether this guard is the current holder of its region's lock.
    pub fn is_holder(&self, book: &MasterOrderBook) -> (held: bool)
        requires
            book.inv(),
        ensures
            held == book@.holds(self@),
    {
        match book.get_region_server(self.region()) {
            Some(server) => server.is_held_by(self),
            None => false,
        }
    }

    /// The region's running total as of the last committed order: what came
    /// in counts positive, what went out negative. A total outside 32 bits is
    /// reported as the nearest 32-bit value.
    pub fn get_balance(&self, book: &MasterOrderBook) -> (result: Result<i32, LedgerError>)
        requires
            book.inv(),
        ensures
            result == book@.get_balance(self@),
    {
        book.balance_for(self.region(), self.ticket())
    }

    /// Sets the sender of the open record. Fails with `NoRecordOpen` where no
    /// record is open.
    pub fn set_sender(&self, book: &mut MasterOrderBook, sender: i32) -> (result: Result<
        (),
        LedgerError,
    >)
        requires
            old(book).inv(),
        ensures
            final(book).inv(),
            final(book)@ == old(book)@.stage(self@, Field::Sender(sender)).0,
            result == old(book)@.stage(self@, Field::Sender(sender)).1,
    {
        book.stage_for(self.region(), self.ticket(), Field::Sender(sender))
    }

    /// Sets the recipient of the open record. Fails with `NoRecordOpen` where
    /// no record is open.
    pub fn set_recipient(&self, book: &mut MasterOrderBook, recipient: i32) -> (result: Result<
        (),
        LedgerError,
    >)
        requires
            old(book).inv(),
        ensures
            final(book).inv(),
            final(book)@ == old(book)@.stage(self@, Field::Recipient(recipient)).0,
            result == old(book)@.stage(self@, Field::Recipient(recipient)).1,
    {
        book.stage_for(self.region(), self.ticket(), Field::Recipient(recipient))
    }

    /// Sets the amount of the open record. Fails with `NoRecordOpen` where no
    /// record is open.
    pub fn set_money(&self, book: &mut MasterOrderBook, money: i32) -> (result: Result<
        (),
        LedgerError,
    >)
        requires
            old(book).inv(),
        ensures
            final(book).inv(),
            final(book)@ == old(book)@.stage(self@, Field::Money(money)).0,
            result == old(book)@.stage(self@, Field::Money(money)).1,
    {
        book.stage_for(self.region(), self.ticket(), Field::Money(money))
    }

    /// Commits the open record as the region's most recent order and leaves
    /// the ledger idle. Fails with `NoRecordOpen` where no record is open and
    /// with `Incomplete` where one is open but lacks a field; nothing is
    /// committed then.
    pub fn flush_record(&self, book: &mut MasterOrderBook) -> (result: Result<(), LedgerError>)
        requires
            old(book).inv(),
        ensures
            final(book).inv(),
            final(book)@ == old(book)@.flush_record(self@).0,
            result == old(book)@.flush_record(self@).1,
    {
        book.flush_record_for(self.region(), self.ticket())
    }

    /// Opens a record with no field set. Fails with `AlreadyOpen` where one is
    /// open already, and with `Busy` where the record store cannot take a new
    /// record right now.
    pub fn open_record(&self, book: &mut MasterOrderBook) -> (result: Result<(), LedgerError>)
        requires
            old(book).inv(),
        ensures
            final(book).inv(),
            final(book)@ == old(book)@.open_record(self@).0,
            result == old(book)@.open_record(self@).1,
    {
        book.open_record_for(self.region(), self.ticket())
    }

    /// Gives the lock back. The guard is used up, so this happens once per
    /// acquisition; a guard that is no longer the holder changes nothing.
    pub fn release(self, book: &mut MasterOrderBook)
        requires
            old(book).inv(),
        ensures
            final(book).inv(),
            final(book)@ == old(book)@.release(self@),
    {
        book.release_claim(self.region(), self.ticket())
    }
}

} // verus!
