//! The in-memory wallet model: the plain values the event loop reads and
//! mutates. Cryptography, descriptors and chain data stay with the wallet
//! engine outside this crate; the loop's decisions depend only on what is
//! held here.

use vstd::prelude::*;

verus! {

/// The largest non-hardened derivation index; address revelation never
/// advances past it.
pub const MAX_DERIVATION_INDEX: u32 = 0x7FFF_FFFF;

/// A verified delta produced by the background sync process, reduced to the
/// plain values the loop logic reads: the wallet's new total balance in
/// satoshis and the new chain tip.
#[derive(Clone, Copy, PartialEq, Eq, Structural, Debug)]
pub struct Update {
    pub balance_sat: u64,
    pub tip_height: u32,
}

/// The mutable in-memory wallet aggregate, owned exclusively by the event
/// loop and mutated only through `apply` and `reveal_next_address`.
#[derive(Clone, Copy, PartialEq, Eq, Structural, Debug)]
pub struct WalletState {
    /// Total confirmed balance, in satoshis.
    pub balance_sat: u64,
    /// The next unrevealed index on the external (receive) keychain.
    pub next_external_index: u32,
    /// Height of the chain tip the wallet is synchronized to.
    pub tip_height: u32,
}

impl WalletState {
    /// The wallet after one update is applied.
    pub open spec fn apply_spec(self, u: Update) -> WalletState {
        WalletState {
            balance_sat: u.balance_sat,
            next_external_index: self.next_external_index,
            tip_height: u.tip_height,
        }
    }

    /// The wallet after a sequence of updates is applied in order.
    pub open spec fn apply_all_spec(self, updates: Seq<Update>) -> WalletState
        decreases updates.len(),
    {
        if updates.len() == 0 {
            self
        } else {
            self.apply_spec(updates[0]).apply_all_spec(updates.drop_first())
        }
    }

    /// The wallet after one more receive address is revealed: the external
    /// keychain index advances by one, up to the last derivable index.
    pub open spec fn reveal_address_spec(self) -> WalletState {
        if self.next_external_index < MAX_DERIVATION_INDEX {
            WalletState {
                balance_sat: self.balance_sat,
                next_external_index: (self.next_external_index + 1) as u32,
                tip_height: self.tip_height,
            }
        } else {
            self
        }
    }

    pub fn new(balance_sat: u64, next_external_index: u32, tip_height: u32) -> (w: WalletState)
        ensures
            w == (WalletState { balance_sat, next_external_index, tip_height }),
    {
        WalletState { balance_sat, next_external_index, tip_height }
    }

    /// Apply one update. Pure with respect to I/O: only the in-memory
    /// aggregate changes; the durable flush that must follow is the event
    /// loop's duty.
    pub fn apply(&mut self, u: Update)
        ensures
            *final(self) == old(self).apply_spec(u),
    {
        self.balance_sat = u.balance_sat;
        self.tip_height = u.tip_height;
    }

    /// The total confirmed balance, in satoshis. Read-only.
    pub fn balance(&self) -> (r: u64)
        ensures
            r == self.balance_sat,
    {
        self.balance_sat
    }

    /// Reveal the next receive address: returns the derivation index of the
    /// revealed address and advances the external keychain index, except at
    /// the last derivable index, which is handed out again unchanged.
    pub fn reveal_next_address(&mut self) -> (idx: u32)
        ensures
            *final(self) == old(self).reveal_address_spec(),
            idx == old(self).next_external_index,
    {
        let idx: u32 = self.next_external_index;
        if idx < MAX_DERIVATION_INDEX {
            self.next_external_index = idx + 1;
        }
        idx
    }
}

} // verus!
