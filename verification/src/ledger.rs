use vstd::prelude::*;
use crate::address::Address;

verus! {

/// What this library knows of one account of the balance ledger: where it is,
/// who holds it, what it holds and whether the ledger has frozen it. The ledger
/// itself is kept elsewhere; this is the picture of it that a call is handed
/// and that is brought up to date when the ledger accepts a request.
#[derive(Clone, Copy, Debug, PartialEq, Eq)]
pub struct TokenAccount {
    pub address: Address,
    pub owner: Address,
    pub amount: u64,
    pub frozen: bool,
}

/// A request to the balance ledger. The library decides which request is due;
/// the host carries it out and reports how the ledger answered. A request that
/// names a `bump` is signed in the name of the token instance, under the salt
/// that its record is stored with; a transfer is signed by its `authority`
/// alone.
#[derive(Clone, Copy, Debug, PartialEq, Eq)]
pub enum LedgerCall {
    MintTo { mint: Address, to: Address, authority: Address, bump: u8, amount: u64 },
    FreezeAccount { mint: Address, account: Address, authority: Address, bump: u8 },
    ThawAccount { mint: Address, account: Address, authority: Address, bump: u8 },
    Transfer { from: Address, to: Address, authority: Address, amount: u64 },
}

/// How the ledger answered a request.
#[derive(Clone, Copy, Debug, PartialEq, Eq, Structural)]
pub enum LedgerReply {
    Accepted,
    Refused,
}

impl TokenAccount {
    /// The account after the ledger answered a request to freeze it.
    pub open spec fn spec_after_freeze(self, reply: LedgerReply) -> TokenAccount {
        match reply {
            LedgerReply::Accepted => TokenAccount { frozen: true, ..self },
            LedgerReply::Refused => self,
        }
    }

    /// The account after the ledger answered a request to thaw it.
    pub open spec fn spec_after_thaw(self, reply: LedgerReply) -> TokenAccount {
        match reply {
            LedgerReply::Accepted => TokenAccount { frozen: false, ..self },
            LedgerReply::Refused => self,
        }
    }

    /// The account after the ledger answered a request to credit it.
    pub open spec fn spec_after_credit(self, amount: u64, reply: LedgerReply) -> TokenAccount {
        match reply {
            LedgerReply::Accepted => TokenAccount {
                amount: (self.amount + amount) as u64,
                ..self
            },
            LedgerReply::Refused => self,
        }
    }

    /// The account after the ledger answered a request to take `amount` out.
    pub open spec fn spec_after_debit(self, amount: u64, reply: LedgerReply) -> TokenAccount {
        match reply {
            LedgerReply::Accepted => TokenAccount {
                amount: (self.amount - amount) as u64,
                ..self
            },
            LedgerReply::Refused => self,
        }
    }

    /// Records the ledger's answer to a freeze request: an accepted one leaves
    /// the account frozen, a refused one leaves it as it was.
    pub fn record_freeze(&mut self, reply: LedgerReply)
        ensures
            *final(self) == old(self).spec_after_freeze(reply),
    {
        match reply {
            LedgerReply::Accepted => {
                self.frozen = true;
            },
            LedgerReply::Refused => {},
        }
    }

    /// Records the ledger's answer to a thaw request: an accepted one leaves
    /// the account free to move value again, a refused one leaves it as it was.
    pub fn record_thaw(&mut self, reply: LedgerReply)
        ensures
            *final(self) == old(self).spec_after_thaw(reply),
    {
        match reply {
            LedgerReply::Accepted => {
                self.frozen = false;
            },
            LedgerReply::Refused => {},
        }
    }

    /// Records the ledger's answer to a request that credits this account. The
    /// ledger accepts no credit that its balance cannot hold.
    pub fn record_credit(&mut self, amount: u64, reply: LedgerReply)
        requires
            reply == LedgerReply::Accepted ==> old(self).amount + amount <= u64::MAX,
        ensures
            *final(self) == old(self).spec_after_credit(amount, reply),
            reply == LedgerReply::Accepted ==> final(self).amount == old(self).amount + amount,
    {
        match reply {
            LedgerReply::Accepted => {
                self.amount = self.amount + amount;
            },
            LedgerReply::Refused => {},
        }
    }

    /// Records the ledger's answer to a request that takes `amount` out of this
    /// account. The ledger accepts no debit beyond the balance.
    pub fn record_debit(&mut self, amount: u64, reply: LedgerReply)
        requires
            reply == LedgerReply::Accepted ==> amount <= old(self).amount,
        ensures
            *final(self) == old(self).spec_after_debit(amount, reply),
            reply == LedgerReply::Accepted ==> final(self).amount == old(self).amount - amount,
    {
        match reply {
            LedgerReply::Accepted => {
                self.amount = self.amount - amount;
            },
            LedgerReply::Refused => {},
        }
    }
}

} // verus!
