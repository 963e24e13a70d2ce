//! What the answers of the native record store mean.
//!
//! The record store speaks in status numbers. The front end makes the calls;
//! what a number means, and whether to go on waiting for the store, is
//! decided here.

use vstd::prelude::*;
use crate::server::{LedgerError, LockError};

verus! {

/// Whether the record store can be served from yet.
#[derive(Clone, Copy, Debug, PartialEq, Eq, Structural)]
pub enum Readiness {
    /// The store holds records: go ahead.
    Ready,
    /// The store is still empty: ask again after a pause.
    Wait,
    /// The store is still empty and the patience is used up.
    GiveUp,
}

/// One look at the store while starting up. `length` is how many records it
/// reports, `polls_left` how often it may still be asked after this.
pub fn readiness(length: i32, polls_left: u32) -> (answer: Readiness)
    ensures
        answer == if length != 0 {
            Readiness::Ready
        } else if polls_left > 0 {
            Readiness::Wait
        } else {
            Readiness::GiveUp
        },
{
    if length != 0 {
        Readiness::Ready
    } else if polls_left > 0 {
        Readiness::Wait
    } else {
        Readiness::GiveUp
    }
}

/// The number of regions that the store reports, or `None` where it reports
/// a negative number: such a store cannot be started from.
pub fn region_count(reported: i32) -> (count: Option<usize>)
    ensures
        reported < 0 <==> count is None,
        count matches Some(n) ==> n == reported,
{
    if reported < 0 {
        None
    } else {
        Some(reported as usize)
    }
}

/// What the store's answer to an attempt on a lock means: 1 is a grant; on
/// anything else `busy` tells a lock that is held from a wrong password.
pub fn lock_status(claim: i32, busy: bool) -> (outcome: Result<(), LockError>)
    ensures
        outcome == if claim == 1 {
            Ok::<(), LockError>(())
        } else if busy {
            Err::<(), LockError>(LockError::Busy)
        } else {
            Err::<(), LockError>(LockError::Denied)
        },
{
    if claim == 1 {
        Ok(())
    } else if busy {
        Err(LockError::Busy)
    } else {
        Err(LockError::Denied)
    }
}

/// What the store's answer to opening a record means: -1 says that one is
/// open already, -2 that the store is busy.
pub fn open_status(status: i32) -> (outcome: Result<(), LedgerError>)
    ensures
        outcome == if status == -1 {
            Err::<(), LedgerError>(LedgerError::AlreadyOpen)
        } else if status == -2 {
            Err::<(), LedgerError>(LedgerError::Busy)
        } else {
            Ok::<(), LedgerError>(())
        },
{
    if status == -1 {
        Err(LedgerError::AlreadyOpen)
    } else if status == -2 {
        Err(LedgerError::Busy)
    } else {
        Ok(())
    }
}

/// Runs one call that writes to the open record and answers -1 where there
/// is none, and says what the answer means.
pub fn call_io_based_error_fn<F>(func: F) -> (outcome: Result<(), LedgerError>) where
    F: FnOnce() -> i32,

    requires
        func.requires(()),
    ensures
        exists|status: i32| #[trigger]
            func.ensures((), status) && outcome == if status == -1 {
                Err::<(), LedgerError>(LedgerError::NoRecordOpen)
            } else {
                Ok::<(), LedgerError>(())
            },
{
    let claim = func();
    if claim == -1 {
        Err(LedgerError::NoRecordOpen)
    } else {
        Ok(())
    }
}

} // verus!
