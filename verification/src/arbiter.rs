//! The bus arbiter: it owns the single physical bus and issues a fixed
//! number of logical handles, one per sensor session. Transactions on the
//! logical handles are serialized: a transaction must be completed — the
//! physical bus released — before any handle can begin another. The begin
//! and end operations track that discipline, and the transaction token is
//! neither copyable nor reusable, so a completed transaction cannot be
//! replayed.

use vstd::prelude::*;

verus! {

/// A failure of the bus arbiter: a fatal configuration error detected at
/// startup, never a runtime retry.
#[derive(Clone, Copy, PartialEq, Eq, Structural, Debug)]
pub enum ArbiterError {
    /// The fixed count of logical handles is exhausted.
    HandlesExhausted,
    /// The physical bus is exclusively claimed by an incomplete transaction.
    BusUnavailable,
}

/// A logical handle to the shared physical bus, owned by exactly one sensor
/// session.
#[derive(Debug)]
pub struct BusLease {
    id: usize,
}

impl BusLease {
    /// Which of the arbiter's handles this is.
    pub closed spec fn spec_id(self) -> int {
        self.id as int
    }

    pub fn id(&self) -> (i: usize)
        ensures
            i == self.spec_id(),
    {
        self.id
    }
}

/// A bus transaction in flight on one logical handle. Consumed on
/// completion.
#[derive(Debug)]
pub struct BusTxn {
    lease: usize,
}

impl BusTxn {
    /// The logical handle the transaction runs on.
    pub closed spec fn spec_lease(self) -> int {
        self.lease as int
    }
}

/// The arbiter of the single physical bus.
pub struct BusArbiter {
    capacity: usize,
    issued: usize,
    busy: bool,
}

impl BusArbiter {
    /// How many logical handles may ever be issued.
    pub closed spec fn spec_capacity(self) -> int {
        self.capacity as int
    }

    /// How many logical handles have been issued.
    pub closed spec fn spec_issued(self) -> int {
        self.issued as int
    }

    /// Whether a transaction currently holds the physical bus.
    pub closed spec fn spec_busy(self) -> bool {
        self.busy
    }

    /// Take ownership of the single physical bus (held by the caller as the
    /// moved-in right to construct this arbiter) and prepare to issue at most
    /// `capacity` logical handles.
    pub fn new(capacity: usize) -> (a: BusArbiter)
        ensures
            a.spec_capacity() == capacity,
            a.spec_issued() == 0,
            !a.spec_busy(),
    {
        BusArbiter { capacity, issued: 0, busy: false }
    }

    /// Issue the next logical handle. Fails exactly when the fixed handle
    /// count is exhausted — a fatal configuration error at startup.
    pub fn acquire(&mut self) -> (r: Result<BusLease, ArbiterError>)
        ensures
            final(self).spec_capacity() == old(self).spec_capacity(),
            final(self).spec_busy() == old(self).spec_busy(),
            old(self).spec_issued() < old(self).spec_capacity() ==> r is Ok && r->Ok_0.spec_id()
                == old(self).spec_issued() && final(self).spec_issued() == old(self).spec_issued()
                + 1,
            old(self).spec_issued() >= old(self).spec_capacity() ==> r is Err && r->Err_0
                == ArbiterError::HandlesExhausted && final(self).spec_issued() == old(self).spec_issued(),
    {
        if self.issued < self.capacity {
            let lease = BusLease { id: self.issued };
            self.issued = self.issued + 1;
            Ok(lease)
        } else {
            Err(ArbiterError::HandlesExhausted)
        }
    }

    /// Begin a transaction on a logical handle. Succeeds exactly when no
    /// other transaction holds the physical bus, so transactions on the
    /// logical handles can never be physically concurrent: each must be
    /// completed before another can begin.
    pub fn begin(&mut self, lease: &BusLease) -> (r: Result<BusTxn, ArbiterError>)
        requires
            lease.spec_id() < old(self).spec_issued(),
        ensures
            final(self).spec_capacity() == old(self).spec_capacity(),
            final(self).spec_issued() == old(self).spec_issued(),
            !old(self).spec_busy() ==> r is Ok && r->Ok_0.spec_lease() == lease.spec_id() && final(self).spec_busy(),
            old(self).spec_busy() ==> r is Err && r->Err_0 == ArbiterError::BusUnavailable && final(self).spec_busy(),
    {
        if self.busy {
            Err(ArbiterError::BusUnavailable)
        } else {
            self.busy = true;
            Ok(BusTxn { lease: lease.id() })
        }
    }

    /// Complete a transaction, releasing the physical bus. The transaction
    /// token is consumed: it cannot complete twice.
    pub fn end(&mut self, txn: BusTxn) -> (released: usize)
        requires
            old(self).spec_busy(),
        ensures
            final(self).spec_capacity() == old(self).spec_capacity(),
            final(self).spec_issued() == old(self).spec_issued(),
            !final(self).spec_busy(),
            released == txn.spec_lease(),
    {
        self.busy = false;
        txn.lease
    }
}

} // verus!
