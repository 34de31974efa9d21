//! The durable-store model: the wallet snapshot that the last flush made
//! durable. The store is the loop's single-writer persistence handle; real
//! storage outside this crate must mirror exactly the flushes decided here.

use vstd::prelude::*;
use crate::wallet::WalletState;

verus! {

/// Durable storage, modelled by the snapshot it holds. Created once at
/// startup from the loaded (or freshly initialized) wallet and written only
/// by `flush`.
#[derive(Clone, Copy, PartialEq, Eq, Structural, Debug)]
pub struct DurableStore {
    /// The wallet state the last flush persisted.
    pub persisted: WalletState,
}

impl DurableStore {
    /// The store after a flush of wallet state `w`.
    pub open spec fn flush_spec(self, w: WalletState) -> DurableStore {
        DurableStore { persisted: w }
    }

    pub fn new(w: WalletState) -> (s: DurableStore)
        ensures
            s == (DurableStore { persisted: w }),
    {
        DurableStore { persisted: w }
    }

    /// Make the given wallet state durable.
    pub fn flush(&mut self, w: &WalletState)
        ensures
            *final(self) == old(self).flush_spec(*w),
    {
        self.persisted = *w;
    }
}

/// Law: flushing is idempotent — flushing the same unchanged wallet state
/// twice in succession leaves the durable state identical to flushing it
/// once, whatever the store held before.
pub proof fn lemma_flush_idempotent(s: DurableStore, w: WalletState)
    ensures
        s.flush_spec(w).flush_spec(w) == s.flush_spec(w),
{
}

} // verus!
