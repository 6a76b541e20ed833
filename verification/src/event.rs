use vstd::prelude::*;

use crate::pubkey::Pubkey;

verus! {

/// The notification of a buy that took effect.
#[derive(Clone, Copy, Debug, PartialEq, Eq)]
pub struct BuyEvent {
    pub buyer: Pubkey,
    /// Base units of the token that the buyer received.
    pub amount: u64,
    /// Lamports that the buyer paid.
    pub lamports_spent: u64,
}

/// The notification of a sell that took effect.
#[derive(Clone, Copy, Debug, PartialEq, Eq)]
pub struct SellEvent {
    pub seller: Pubkey,
    /// Base units of the token that the seller gave back.
    pub amount: u64,
    /// Lamports that the seller received.
    pub lamports_received: u64,
}

/// One entry of the audit log.
#[derive(Clone, Copy, Debug, PartialEq, Eq)]
pub enum MarketEvent {
    Buy(BuyEvent),
    Sell(SellEvent),
}

/// The audit log: the notifications of the operations that took effect, oldest
/// first. Entries are only ever added at the end.
#[derive(Debug)]
pub struct AuditLog {
    entries: Vec<MarketEvent>,
}

impl View for AuditLog {
    type V = Seq<MarketEvent>;

    closed spec fn view(&self) -> Seq<MarketEvent> {
        self.entries@
    }
}

impl AuditLog {
    /// A log without entries.
    pub fn new() -> (log: AuditLog)
        ensures
            log@ == Seq::<MarketEvent>::empty(),
    {
        AuditLog { entries: Vec::new() }
    }

    /// Adds `event` at the end of the log.
    pub fn record(&mut self, event: MarketEvent)
        ensures
            final(self)@ == old(self)@.push(event),
    {
        self.entries.push(event);
    }

    /// The number of entries.
    pub fn len(&self) -> (res: usize)
        ensures
            res == self@.len(),
    {
        self.entries.len()
    }

    /// The entry at `index`, counted from the oldest, if there is one.
    pub fn get(&self, index: usize) -> (res: Option<MarketEvent>)
        ensures
            res == if index < self@.len() {
                Some(self@[index as int])
            } else {
                None
            },
    {
        if index < self.entries.len() {
            Some(self.entries[index])
        } else {
            None
        }
    }
}

} // verus!
