//! Committed orders and the arithmetic of a region's ledger: what one order
//! contributes to a region's running total, the total of a history, and the
//! window of most recent orders that a history query returns.

use vstd::prelude::*;

verus! {

/// Marker carried by every order that a flush has committed.
pub const COMMITTED: i32 = 1;

/// One committed money transfer. An order is created when a record is flushed
/// and never changes afterwards.
#[derive(Clone, Copy, Debug, PartialEq, Eq, Structural)]
pub struct Order {
    pub recipient: i32,
    pub sender: i32,
    pub money: i32,
    pub region: i32,
    /// Internal marker of the record store; `COMMITTED` on every order that
    /// this library commits.
    pub status: i32,
}

/// The order that committing `(sender, recipient, money)` on the ledger of
/// `region` produces.
pub open spec fn committed(sender: i32, recipient: i32, money: i32, region: i32) -> Order {
    Order { recipient, sender, money, region, status: COMMITTED }
}

impl Order {
    /// A committed order with the given fields.
    pub fn new(sender: i32, recipient: i32, money: i32, region: i32) -> (order: Order)
        ensures
            order == committed(sender, recipient, money, region),
    {
        Order { recipient, sender, money, region, status: COMMITTED }
    }
}

/// What one order adds to the running total of `region`: money that arrives
/// counts positive, money that leaves counts negative. An order between two
/// other regions, or from a region to itself, adds nothing.
pub open spec fn effect(order: Order, region: int) -> int {
    (if order.recipient == region {
        order.money as int
    } else {
        0
    }) - (if order.sender == region {
        order.money as int
    } else {
        0
    })
}

/// The running total of `region` over a history of committed orders.
pub open spec fn total(records: Seq<Order>, region: int) -> int
    decreases records.len(),
{
    if records.len() == 0 {
        0
    } else {
        total(records.drop_last(), region) + effect(records.last(), region)
    }
}

/// The balance that is reported for a running total: the total itself where it
/// fits in 32 bits, and the nearest 32-bit value where it does not.
pub open spec fn reported(total: int) -> i32 {
    if total > i32::MAX {
        i32::MAX
    } else if total < i32::MIN {
        i32::MIN
    } else {
        total as i32
    }
}

/// How many orders a history query for `n` orders returns.
pub open spec fn window_len(records: Seq<Order>, n: nat) -> nat {
    if n <= records.len() {
        n
    } else {
        records.len()
    }
}

/// The `n` most recently committed orders, oldest first, so that the last
/// element is the most recent one. All of them where fewer than `n` exist.
pub open spec fn window(records: Seq<Order>, n: nat) -> Seq<Order> {
    records.subrange(records.len() - window_len(records, n), records.len() as int)
}

/// A running total never exceeds what its orders could add up to at most.
pub proof fn total_bounded(records: Seq<Order>, region: int)
    ensures
        -(records.len() * 0x8000_0000) <= total(records, region) <= records.len() * 0x8000_0000,
    decreases records.len(),
{
    if records.len() > 0 {
        total_bounded(records.drop_last(), region);
    }
}

/// Committing one more order moves the total by that order's effect.
pub proof fn total_push(records: Seq<Order>, order: Order, region: int)
    ensures
        total(records.push(order), region) == total(records, region) + effect(order, region),
{
    assert(records.push(order).drop_last() =~= records);
}

/// `effect` as a machine integer.
pub fn effect_of(order: &Order, region: i32) -> (e: i64)
    ensures
        e == effect(*order, region as int),
{
    let incoming: i64 = if order.recipient == region {
        order.money as i64
    } else {
        0
    };
    let outgoing: i64 = if order.sender == region {
        order.money as i64
    } else {
        0
    };
    incoming - outgoing
}

/// `reported` as a machine integer.
pub fn report(total: i128) -> (balance: i32)
    ensures
        balance == reported(total as int),
{
    if total > 2147483647 {
        2147483647
    } else if total < -2147483648 {
        -2147483648
    } else {
        total as i32
    }
}

/// The `n` most recent orders of a history, oldest first.
pub fn recent(records: &Vec<Order>, n: usize) -> (orders: Vec<Order>)
    ensures
        orders@ == window(records@, n as nat),
{
    let end: usize = records.len();
    let count: usize = if n <= end {
        n
    } else {
        end
    };
    let start: usize = end - count;
    let mut orders: Vec<Order> = Vec::new();
    let mut at: usize = start;
    while at < end
        invariant
            start <= at <= end,
            end == records.len(),
            orders@ == records@.subrange(start as int, at as int),
        decreases end - at,
    {
        orders.push(records[at]);
        assert(records@.subrange(start as int, at as int).push(records@[at as int])
            =~= records@.subrange(start as int, at as int + 1));
        at = at + 1;
    }
    orders
}

} // verus!
