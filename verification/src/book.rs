//! The registry of regions.
//!
//! A `MasterOrderBook` owns the lock and ledger of every region that was
//! opened, and is the only way to reach them: a guard names its region, and
//! every operation of a guard looks the region up here. `BookState` is the
//! model: a directory of region names and a map from region id to the model
//! of that region's server.

use vstd::prelude::*;
use crate::ledger::Order;
use crate::server::{AcquiredOrderServer, Claim, Field, LedgerError, LockError, OrderServer,
    ServerState};

verus! {

/// The model of the registry.
pub struct BookState {
    /// The display name of every region that exists; a region's id is its
    /// position here.
    pub names: Seq<Seq<char>>,
    /// The regions that were opened, by id.
    pub regions: Map<i32, ServerState>,
    /// The record store cannot take a new record right now.
    pub busy: bool,
}

impl BookState {
    /// Every open region is filed under its own id, is one of the directory
    /// and is itself well formed.
    pub open spec fn wf(self) -> bool {
        forall|id: i32| #[trigger]
            self.regions.contains_key(id) ==> {
                &&& self.regions[id].id == id
                &&& self.regions[id].wf()
                &&& 0 <= id < self.names.len()
                &&& self.regions[id].name == self.names[id as int]
            }
    }

    /// Region `id` exists and is not open yet.
    pub open spec fn can_open(self, id: i32) -> bool {
        0 <= id < self.names.len() && !self.regions.contains_key(id)
    }

    /// Region `id` is opened: free, idle and empty, behind `secret`, with
    /// `issued` tickets counted as handed out already.
    pub open spec fn open_region(self, id: i32, secret: Seq<char>, issued: u64) -> BookState {
        BookState {
            regions: self.regions.insert(
                id,
                ServerState::opened(id, self.names[id as int], secret, issued),
            ),
            ..self
        }
    }

    /// The registry with region `id` replaced by `server`.
    pub open spec fn with_region(self, id: i32, server: ServerState) -> BookState {
        BookState { regions: self.regions.insert(id, server), ..self }
    }

    /// `claim` is the current holder of its region's lock.
    pub open spec fn holds(self, claim: Claim) -> bool {
        self.regions.contains_key(claim.region) && self.regions[claim.region].holds(claim.ticket)
    }

    /// `claim` is one that this registry handed out at some time.
    pub open spec fn issued(self, claim: Claim) -> bool {
        self.regions.contains_key(claim.region) && claim.ticket
            < self.regions[claim.region].issued
    }

    /// One attempt to take the lock of `region`.
    pub open spec fn try_lock(self, region: i32, password: Seq<char>) -> (
        BookState,
        Result<Claim, LockError>,
    ) {
        if !self.regions.contains_key(region) {
            (self, Err(LockError::NoSuchRegion))
        } else {
            let (server, outcome) = self.regions[region].try_lock(password);
            match outcome {
                Ok(ticket) => (self.with_region(region, server), Ok(Claim { region, ticket })),
                Err(e) => (self, Err(e)),
            }
        }
    }

    /// The holder gives its lock back. From anybody else this changes nothing.
    pub open spec fn release(self, claim: Claim) -> BookState {
        if self.holds(claim) {
            self.with_region(claim.region, self.regions[claim.region].release(claim.ticket))
        } else {
            self
        }
    }

    /// The holder opens a record on its region's ledger.
    pub open spec fn open_record(self, claim: Claim) -> (BookState, Result<(), LedgerError>) {
        if !self.holds(claim) {
            (self, Err(LedgerError::NotHolder))
        } else {
            let (server, outcome) = self.regions[claim.region].open_record(claim.ticket, self.busy);
            (self.with_region(claim.region, server), outcome)
        }
    }

    /// The holder sets one field of the open record.
    pub open spec fn stage(self, claim: Claim, field: Field) -> (
        BookState,
        Result<(), LedgerError>,
    ) {
        if !self.holds(claim) {
            (self, Err(LedgerError::NotHolder))
        } else {
            let (server, outcome) = self.regions[claim.region].stage(claim.ticket, field);
            (self.with_region(claim.region, server), outcome)
        }
    }

    /// The holder commits the open record.
    pub open spec fn flush_record(self, claim: Claim) -> (BookState, Result<(), LedgerError>) {
        if !self.holds(claim) {
            (self, Err(LedgerError::NotHolder))
        } else {
            let (server, outcome) = self.regions[claim.region].flush_record(claim.ticket);
            (self.with_region(claim.region, server), outcome)
        }
    }

    /// What the holder reads as its region's balance.
    pub open spec fn get_balance(self, claim: Claim) -> Result<i32, LedgerError> {
        if !self.holds(claim) {
            Err(LedgerError::NotHolder)
        } else {
            self.regions[claim.region].get_balance(claim.ticket)
        }
    }

    /// What the holder reads as the `n` most recent orders of its region.
    pub open spec fn top_n_orders(self, claim: Claim, n: nat) -> Result<Seq<Order>, LedgerError> {
        if !self.holds(claim) {
            Err(LedgerError::NotHolder)
        } else {
            self.regions[claim.region].top_n_orders(claim.ticket, n)
        }
    }
}

/// The registry of regions: the directory of the regions that exist and the
/// lock and ledger of each one that was opened.
pub struct MasterOrderBook {
    names: Vec<String>,
    servers: Vec<OrderServer>,
    busy: bool,
}

impl View for MasterOrderBook {
    type V = BookState;

    closed spec fn view(&self) -> BookState {
        BookState {
            names: Seq::new(self.names@.len(), |i: int| self.names@[i]@),
            regions: Map::new(
                |id: i32| self.slot_of(id) is Some,
                |id: i32| self.servers@[self.slot_of(id)->0]@,
            ),
            busy: self.busy,
        }
    }
}

impl MasterOrderBook {
    /// Where the server of region `id` is kept, if it is open.
    closed spec fn slot_of(&self, id: i32) -> Option<int> {
        if exists|k: int| 0 <= k < self.servers@.len() && (#[trigger] self.servers@[k])@.id == id {
            Some(choose|k: int| 0 <= k < self.servers@.len() && (#[trigger] self.servers@[k])@.id == id)
        } else {
            None
        }
    }

    /// The registry is well formed: every server is, no region was opened
    /// twice, and every server is a region of the directory under its name.
    pub closed spec fn inv(&self) -> bool {
        &&& forall|k: int| 0 <= k < self.servers@.len() ==> (#[trigger] self.servers@[k]).inv()
        &&& forall|j: int, k: int|
            0 <= j < self.servers@.len() && 0 <= k < self.servers@.len() && j != k ==> (
            #[trigger] self.servers@[j])@.id != (#[trigger] self.servers@[k])@.id
        &&& forall|k: int|
            0 <= k < self.servers@.len() ==> {
                &&& 0 <= (#[trigger] self.servers@[k])@.id < self.names@.len()
                &&& self.servers@[k]@.name == self.names@[self.servers@[k]@.id as int]@
            }
    }

    /// A well-formed registry has a well-formed model.
    pub proof fn inv_wf(&self)
        requires
            self.inv(),
        ensures
            self@.wf(),
    {
        assert forall|id: i32| #[trigger] self@.regions.contains_key(id) implies {
            &&& self@.regions[id].id == id
            &&& self@.regions[id].wf()
            &&& 0 <= id < self@.names.len()
            &&& self@.regions[id].name == self@.names[id as int]
        } by {
            let k = self.slot_of(id)->0;
            self.servers@[k].inv_wf();
        }
    }

    /// The server kept at `k` is the one that the model files under its id.
    proof fn slot_filed(&self, k: int)
        requires
            self.inv(),
            0 <= k < self.servers@.len(),
        ensures
            self.slot_of(self.servers@[k]@.id) == Some(k),
            self@.regions.contains_key(self.servers@[k]@.id),
            self@.regions[self.servers@[k]@.id] == self.servers@[k]@,
    {
    }

    /// Replacing the server at `k` by one of the same region replaces that
    /// region in the model and nothing else.
    proof fn slot_replaced(&self, after: &MasterOrderBook, k: int)
        requires
            self.inv(),
            0 <= k < self.servers@.len(),
            after.names == self.names,
            after.busy == self.busy,
            after.servers@.len() == self.servers@.len(),
            forall|j: int|
                0 <= j < self.servers@.len() && j != k ==> after.servers@[j] == self.servers@[j],
            after.servers@[k].inv(),
            after.servers@[k]@.id == self.servers@[k]@.id,
            after.servers@[k]@.name == self.servers@[k]@.name,
        ensures
            after.inv(),
            after@ == self@.with_region(self.servers@[k]@.id, after.servers@[k]@),
    {
        let id = self.servers@[k]@.id;
        assert forall|j: int| 0 <= j < after.servers@.len() implies (
        #[trigger] after.servers@[j])@.id == self.servers@[j]@.id by {
            if j != k {
                assert(after.servers@[j] == self.servers@[j]);
            }
        }
        assert forall|j: int| 0 <= j < after.servers@.len() implies (
        #[trigger] after.servers@[j]).inv() by {
            if j != k {
                assert(after.servers@[j] == self.servers@[j]);
            }
        }
        assert(after.inv()) by {
            assert forall|j: int| 0 <= j < after.servers@.len() implies {
                &&& 0 <= (#[trigger] after.servers@[j])@.id < after.names@.len()
                &&& after.servers@[j]@.name == after.names@[after.servers@[j]@.id as int]@
            } by {
                if j != k {
                    assert(after.servers@[j] == self.servers@[j]);
                }
            }
        }
        assert forall|other: i32| after.slot_of(other) == self.slot_of(other) by {
            if self.slot_of(other) is Some {
                let j = self.slot_of(other)->0;
                assert(after.servers@[j]@.id == other);
                after.slot_filed(j);
            } else if after.slot_of(other) is Some {
                let j = after.slot_of(other)->0;
                assert(self.servers@[j]@.id == other);
            }
        }
        self.slot_filed(k);
        after.slot_filed(k);
        let expected = self@.with_region(id, after.servers@[k]@);
        assert forall|other: i32| #[trigger] after@.regions.contains_key(other) implies after@.regions[other]
            == expected.regions[other] by {
            let j = after.slot_of(other)->0;
            if j != k {
                assert(after.servers@[j] == self.servers@[j]);
                self.slot_filed(j);
            }
        }
        assert(after@.regions =~= expected.regions);
        assert(after@.names =~= expected.names);
    }

    /// A registry over the regions named by `names`, none of them open yet.
    pub fn new(names: Vec<String>) -> (book: MasterOrderBook)
        ensures
            book.inv(),
            book@.names.len() == names@.len(),
            forall|i: int| 0 <= i < names@.len() ==> book@.names[i] == names@[i]@,
            book@.regions == Map::<i32, ServerState>::empty(),
            !book@.busy,
    {
        let book = MasterOrderBook { names, servers: Vec::new(), busy: false };
        assert(book@.regions =~= Map::<i32, ServerState>::empty());
        book
    }

    /// How many regions exist.
    pub fn available_regions(&self) -> (count: usize)
        ensures
            count == self@.names.len(),
    {
        self.names.len()
    }

    /// The display name of region `id`, or `None` where no such region exists.
    pub fn region_name(&self, id: i32) -> (name: Option<&str>)
        ensures
            match name {
                Some(text) => 0 <= id < self@.names.len() && text@ == self@.names[id as int],
                None => !(0 <= id < self@.names.len()),
            },
    {
        if id < 0 {
            return None;
        }
        let at = id as usize;
        if at < self.names.len() {
            Some(self.names[at].as_str())
        } else {
            None
        }
    }

    /// Where the server of region `id` is kept.
    fn find(&self, id: i32) -> (slot: Option<usize>)
        requires
            self.inv(),
        ensures
            match slot {
                Some(k) => {
                    &&& k < self.servers@.len()
                    &&& self.servers@[k as int]@.id == id
                    &&& self@.regions.contains_key(id)
                    &&& self@.regions[id] == self.servers@[k as int]@
                },
                None => !self@.regions.contains_key(id),
            },
    {
        let mut k: usize = 0;
        while k < self.servers.len()
            invariant
                self.inv(),
                k <= self.servers@.len(),
                forall|j: int| 0 <= j < k ==> (#[trigger] self.servers@[j])@.id != id,
            decreases self.servers@.len() - k,
        {
            if self.servers[k].id() == id {
                proof {
                    self.slot_filed(k as int);
                }
                return Some(k);
            }
            k = k + 1;
        }
        None
    }

    /// Whether region `id` exists and is not open yet.
    pub fn can_open(&self, id: i32) -> (ok: bool)
        requires
            self.inv(),
        ensures
            ok == self@.can_open(id),
    {
        if id < 0 {
            return false;
        }
        if id as usize >= self.names.len() {
            return false;
        }
        self.find(id).is_none()
    }

    /// Opens the lock and ledger of region `id` behind the password `secret`.
    /// The region must exist and must not be open already.
    pub fn open_order_server(&mut self, id: i32, secret: &str)
        requires
            old(self).inv(),
            old(self)@.can_open(id),
        ensures
            final(self).inv(),
            final(self)@ == old(self)@.open_region(id, secret@, 0),
    {
        self.reopen_order_server(id, secret, 0);
    }

    /// Opens the lock and ledger of region `id` like `open_order_server`, for
    /// a lock that handed out `issued` tickets in an earlier life. Its next
    /// ticket is `issued`, so that no ticket of the earlier life comes back.
    pub fn reopen_order_server(&mut self, id: i32, secret: &str, issued: u64)
        requires
            old(self).inv(),
            old(self)@.can_open(id),
        ensures
            final(self).inv(),
            final(self)@ == old(self)@.open_region(id, secret@, issued),
    {
        let ghost before = *self;
        let name = self.names[id as usize].clone();
        let server = OrderServer::open(id, name, secret.to_owned(), issued);
        self.servers.push(server);
        proof {
            let last = before.servers@.len() as int;
            assert forall|k: int| 0 <= k < last implies (#[trigger] self.servers@[k])
                == before.servers@[k] by {}
            assert forall|k: int| 0 <= k < last implies (#[trigger] self.servers@[k])@.id != id by {
                before.slot_filed(k);
            }
            assert(self.inv());
            let expected = before@.open_region(id, secret@, issued);
            assert forall|other: i32| self.slot_of(other) is Some <==> (other == id
                || before.slot_of(other) is Some) by {
                if before.slot_of(other) is Some {
                    let j = before.slot_of(other)->0;
                    assert(self.servers@[j]@.id == other);
                }
                if other == id {
                    assert(self.servers@[last]@.id == id);
                }
                if self.slot_of(other) is Some && other != id {
                    let j = self.slot_of(other)->0;
                    assert(before.servers@[j]@.id == other);
                }
            }
            assert forall|other: i32| #[trigger] self@.regions.contains_key(other) implies self@.regions[other]
                == expected.regions[other] by {
                let j = self.slot_of(other)->0;
                self.slot_filed(j);
                if j < last {
                    before.slot_filed(j);
                }
            }
            assert(self@.regions =~= expected.regions);
            assert(self@.names =~= expected.names);
        }
    }

    /// The server of `region`, or `None` where that region is not open.
    pub fn get_region_server(&self, region: i32) -> (server: Option<&OrderServer>)
        requires
            self.inv(),
        ensures
            match server {
                Some(found) => self@.regions.contains_key(region) && found@ == self@.regions[region]
                    && found@.id == region && found.inv(),
                None => !self@.regions.contains_key(region),
            },
    {
        match self.find(region) {
            Some(k) => Some(&self.servers[k]),
            None => None,
        }
    }

    /// Whether the record store is marked as unable to take a new record.
    pub fn engine_busy(&self) -> (busy: bool)
        ensures
            busy == self@.busy,
    {
        self.busy
    }

    /// Marks the record store as unable (`true`) or able (`false`) to take a
    /// new record. While it is unable, `open_record` fails with `Busy`.
    pub fn set_engine_busy(&mut self, busy: bool)
        requires
            old(self).inv(),
        ensures
            final(self).inv(),
            final(self)@ == (BookState { busy, ..old(self)@ }),
    {
        let ghost before = *self;
        self.busy = busy;
        proof {
            assert forall|other: i32| self.slot_of(other) == before.slot_of(other) by {}
            assert(self@.regions =~= before@.regions);
            assert(self@.names =~= before@.names);
        }
    }

    /// Tries to take the lock of `region` with `password`. The caller holds
    /// the lock, and gets the guard that proves it, exactly when the region is
    /// open, nobody holds its lock, the password is the region's and a ticket
    /// is left. Otherwise nothing changes and the error says what failed
    /// first, in that order.
    pub fn try_lock(&mut self, region: i32, password: &str) -> (result: Result<
        AcquiredOrderServer,
        LockError,
    >)
        requires
            old(self).inv(),
        ensures
            final(self).inv(),
            final(self)@ == old(self)@.try_lock(region, password@).0,
            match result {
                Ok(guard) => old(self)@.try_lock(region, password@).1 == Ok::<Claim, LockError>(
                    guard@,
                ),
                Err(e) => old(self)@.try_lock(region, password@).1 == Err::<Claim, LockError>(e),
            },
    {
        let ghost before = *self;
        match self.find(region) {
            None => Err(LockError::NoSuchRegion),
            Some(k) => {
                let result = self.servers[k].try_lock(password);
                proof {
                    before.slot_replaced(self, k as int);
                    if result is Err {
                        assert(self@.regions =~= before@.regions);
                    }
                }
                result
            },
        }
    }

    /// Gives the lock back if `claim` holds it.
    pub(crate) fn release_claim(&mut self, region: i32, ticket: u64)
        requires
            old(self).inv(),
        ensures
            final(self).inv(),
            final(self)@ == old(self)@.release(Claim { region, ticket }),
    {
        let ghost before = *self;
        match self.find(region) {
            None => {},
            Some(k) => {
                self.servers[k].release_lock(ticket);
                proof {
                    before.slot_replaced(self, k as int);
                    if !before@.holds(Claim { region, ticket }) {
                        assert(self@.regions =~= before@.regions);
                    }
                }
            },
        }
    }

    /// Opens a record for the holder.
    pub(crate) fn open_record_for(&mut self, region: i32, ticket: u64) -> (result: Result<
        (),
        LedgerError,
    >)
        requires
            old(self).inv(),
        ensures
            final(self).inv(),
            final(self)@ == old(self)@.open_record(Claim { region, ticket }).0,
            result == old(self)@.open_record(Claim { region, ticket }).1,
    {
        let ghost before = *self;
        match self.find(region) {
            None => Err(LedgerError::NotHolder),
            Some(k) => {
                let busy = self.busy;
                let result = self.servers[k].open_record(ticket, busy);
                proof {
                    before.slot_replaced(self, k as int);
                    if !before@.holds(Claim { region, ticket }) {
                        assert(self@.regions =~= before@.regions);
                    }
                }
                result
            },
        }
    }

    /// Sets one field of the open record for the holder.
    pub(crate) fn stage_for(&mut self, region: i32, ticket: u64, field: Field) -> (result: Result<
        (),
        LedgerError,
    >)
        requires
            old(self).inv(),
        ensures
            final(self).inv(),
            final(self)@ == old(self)@.stage(Claim { region, ticket }, field).0,
            result == old(self)@.stage(Claim { region, ticket }, field).1,
    {
        let ghost before = *self;
        match self.find(region) {
            None => Err(LedgerError::NotHolder),
            Some(k) => {
                let result = self.servers[k].stage(ticket, field);
                proof {
                    before.slot_replaced(self, k as int);
                    if !before@.holds(Claim { region, ticket }) {
                        assert(self@.regions =~= before@.regions);
                    }
                }
                result
            },
        }
    }

    /// Commits the open record for the holder.
    pub(crate) fn flush_record_for(&mut self, region: i32, ticket: u64) -> (result: Result<
        (),
        LedgerError,
    >)
        requires
            old(self).inv(),
        ensures
            final(self).inv(),
            final(self)@ == old(self)@.flush_record(Claim { region, ticket }).0,
            result == old(self)@.flush_record(Claim { region, ticket }).1,
    {
        let ghost before = *self;
        match self.find(region) {
            None => Err(LedgerError::NotHolder),
            Some(k) => {
                let result = self.servers[k].flush_record(ticket);
                proof {
                    before.slot_replaced(self, k as int);
                    if !before@.holds(Claim { region, ticket }) {
                        assert(self@.regions =~= before@.regions);
                    }
                }
                result
            },
        }
    }

    /// The balance as the holder reads it.
    pub(crate) fn balance_for(&self, region: i32, ticket: u64) -> (result: Result<i32, LedgerError>)
        requires
            self.inv(),
        ensures
            result == self@.get_balance(Claim { region, ticket }),
    {
        match self.find(region) {
            None => Err(LedgerError::NotHolder),
            Some(k) => self.servers[k].get_balance(ticket),
        }
    }

    /// The `n` most recently committed orders of the guard's region, oldest
    /// first, so that the last one is the most recent. All of them where the
    /// ledger holds fewer than `n`. Only the current holder of the region's
    /// lock can read them.
    pub fn get_top_n_orders(&self, guard: &AcquiredOrderServer, n: usize) -> (result: Result<
        Vec<Order>,
        LedgerError,
    >)
        requires
            self.inv(),
        ensures
            match result {
                Ok(orders) => self@.top_n_orders(guard@, n as nat) == Ok::<Seq<Order>, LedgerError>(
                    orders@,
                ),
                Err(e) => self@.top_n_orders(guard@, n as nat) == Err::<Seq<Order>, LedgerError>(e),
            },
    {
        match self.find(guard.region()) {
            None => Err(LedgerError::NotHolder),
            Some(k) => self.servers[k].top_n_orders(guard.ticket(), n),
        }
    }

    /// Tears every region down. No guard holds anything afterwards. This is
    /// the step that has to come before the record store itself is closed.
    pub fn shutdown(&mut self)
        requires
            old(self).inv(),
        ensures
            final(self).inv(),
            final(self)@ == (BookState { regions: Map::<i32, ServerState>::empty(), ..old(self)@ }),
    {
        let ghost before = *self;
        self.servers.clear();
        proof {
            assert(self@.regions =~= Map::<i32, ServerState>::empty());
            assert(self@.names =~= before@.names);
        }
    }
}

} // verus!
