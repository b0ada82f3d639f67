//! The balance book: the explicit ledger behind value movement. Every
//! party (creator or donor) has a balance, and every campaign has an
//! escrow balance holding its storage reserve plus the contributions it
//! has accepted. The two transfer operations move value atomically —
//! they either move the full amount or fail with a typed error and
//! change nothing.

use vstd::prelude::*;

use crate::types::ErrorCode;

verus! {

/// Party balances and campaign escrow balances. Parties are indices
/// into `parties`; campaign slot `i` escrows `escrows[i]`.
pub struct BalanceBook {
    pub parties: Vec<u64>,
    pub escrows: Vec<u64>,
}

impl BalanceBook {
    /// An empty book.
    pub fn new() -> (r: BalanceBook)
        ensures
            r.parties@ == Seq::<u64>::empty(),
            r.escrows@ == Seq::<u64>::empty(),
    {
        BalanceBook { parties: Vec::new(), escrows: Vec::new() }
    }

    /// Register a new party with an opening balance; returns its index.
    pub fn add_party(&mut self, initial: u64) -> (id: usize)
        ensures
            id == old(self).parties@.len(),
            final(self).parties@ == old(self).parties@.push(initial),
            final(self).escrows@ == old(self).escrows@,
    {
        let id = self.parties.len();
        self.parties.push(initial);
        id
    }

    /// Open the escrow account for a newly created campaign slot,
    /// funded with its storage reserve.
    pub fn open_escrow(&mut self, funding: u64)
        ensures
            final(self).escrows@ == old(self).escrows@.push(funding),
            final(self).parties@ == old(self).parties@,
    {
        self.escrows.push(funding);
    }

    /// Move `amount` from a party's balance into a campaign's escrow.
    /// Fails with `InsufficientFunds` when the party lacks the amount,
    /// and with `Overflow` when the escrow balance cannot take it; on
    /// failure nothing moves.
    pub fn deposit_to_escrow(&mut self, from: usize, escrow: usize, amount: u64) -> (r: Result<
        (),
        ErrorCode,
    >)
        requires
            from < old(self).parties@.len(),
            escrow < old(self).escrows@.len(),
        ensures
            r is Ok <==> old(self).parties@[from as int] >= amount
                && old(self).escrows@[escrow as int] + amount <= u64::MAX,
            r is Ok ==> final(self).parties@ == old(self).parties@.update(
                from as int,
                (old(self).parties@[from as int] - amount) as u64,
            ) && final(self).escrows@ == old(self).escrows@.update(
                escrow as int,
                (old(self).escrows@[escrow as int] + amount) as u64,
            ),
            r matches Err(e) ==> *final(self) == *old(self) && e == (if old(
                self,
            ).parties@[from as int] < amount {
                ErrorCode::InsufficientFunds
            } else {
                ErrorCode::Overflow
            }),
    {
        let have = self.parties[from];
        if have < amount {
            return Err(ErrorCode::InsufficientFunds);
        }
        let credited = match self.escrows[escrow].checked_add(amount) {
            Some(v) => v,
            None => {
                return Err(ErrorCode::Overflow);
            },
        };
        self.parties[from] = have - amount;
        self.escrows[escrow] = credited;
        Ok(())
    }

    /// Pay `amount` out of a campaign's escrow to a party. Fails with
    /// `InsufficientFunds` when the escrow lacks the amount, and with
    /// `Overflow` when the party's balance cannot take it; on failure
    /// nothing moves.
    pub fn pay_from_escrow(&mut self, escrow: usize, to: usize, amount: u64) -> (r: Result<
        (),
        ErrorCode,
    >)
        requires
            escrow < old(self).escrows@.len(),
            to < old(self).parties@.len(),
        ensures
            r is Ok <==> old(self).escrows@[escrow as int] >= amount
                && old(self).parties@[to as int] + amount <= u64::MAX,
            r is Ok ==> final(self).escrows@ == old(self).escrows@.update(
                escrow as int,
                (old(self).escrows@[escrow as int] - amount) as u64,
            ) && final(self).parties@ == old(self).parties@.update(
                to as int,
                (old(self).parties@[to as int] + amount) as u64,
            ),
            r matches Err(e) ==> *final(self) == *old(self) && e == (if old(
                self,
            ).escrows@[escrow as int] < amount {
                ErrorCode::InsufficientFunds
            } else {
                ErrorCode::Overflow
            }),
    {
        let held = self.escrows[escrow];
        if held < amount {
            return Err(ErrorCode::InsufficientFunds);
        }
        let credited = match self.parties[to].checked_add(amount) {
            Some(v) => v,
            None => {
                return Err(ErrorCode::Overflow);
            },
        };
        self.escrows[escrow] = held - amount;
        self.parties[to] = credited;
        Ok(())
    }

    /// Read one party's balance.
    pub fn party_balance(&self, id: usize) -> (b: u64)
        requires
            id < self.parties@.len(),
        ensures
            b == self.parties@[id as int],
    {
        self.parties[id]
    }

    /// Read one campaign's escrow balance.
    pub fn escrow_balance(&self, escrow: usize) -> (b: u64)
        requires
            escrow < self.escrows@.len(),
        ensures
            b == self.escrows@[escrow as int],
    {
        self.escrows[escrow]
    }
}

} // verus!
