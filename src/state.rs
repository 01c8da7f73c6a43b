use vstd::prelude::*;

use crate::constants::ENTRANTS_SIZE;
use crate::error::RaffleError;

verus! {

/// A 32-byte participant or account identifier.
#[derive(Clone, Copy, Debug, PartialEq, Eq, Hash)]
pub struct Pubkey {
    pub bytes: [u8; 32],
}

impl Pubkey {
    pub fn new_from_array(bytes: [u8; 32]) -> (r: Pubkey)
        ensures
            r.bytes == bytes,
    {
        Pubkey { bytes }
    }

    /// Byte-wise comparison of two identifiers.
    pub fn same_as(&self, other: &Pubkey) -> (r: bool)
        ensures
            r == (*self == *other),
    {
        let mut i: usize = 0;
        while i < 32
            invariant
                0 <= i <= 32,
                forall|j: int| 0 <= j < i ==> self.bytes[j] == other.bytes[j],
            decreases 32 - i,
        {
            if self.bytes[i] != other.bytes[i] {
                return false;
            }
            i = i + 1;
        }
        assert(self.bytes =~= other.bytes);
        true
    }
}

/// The escrow record of one raffle.
#[derive(Clone, Copy, Debug, PartialEq, Eq)]
pub struct Raffle {
    pub authority: Pubkey,
    pub entrants: Pubkey,
    pub end_timestamp: i64,
    pub accumulated_fees: u64,
    pub ticket_lamports_price: u64,
    pub authority_fee_percent: u8,
    pub bump: u8,
    pub claimed_prizes: bool,
    pub randomness: Option<u32>,
}

impl Raffle {
    /// A claimed prize presupposes a drawn winner.
    pub open spec fn wf(&self) -> bool {
        self.claimed_prizes ==> self.randomness is Some
    }
}

/// The ticket pool: an append-only list of entries, capped at `max`.
/// `entrants` holds exactly the `total` filled entries, in purchase order.
#[derive(Clone, Debug, PartialEq, Eq)]
pub struct Entrants {
    pub total: u32,
    pub max: u32,
    pub entrants: Vec<Pubkey>,
}

impl Entrants {
    pub open spec fn wf(&self) -> bool {
        &&& self.entrants@.len() == self.total as int
        &&& self.total <= self.max
        &&& self.max <= ENTRANTS_SIZE
    }

    /// An empty ledger with room for `max` entries.
    pub fn with_capacity(max: u32) -> (r: Entrants)
        requires
            max <= ENTRANTS_SIZE,
        ensures
            r.wf(),
            r.total == 0,
            r.max == max,
            r.entrants@ == Seq::<Pubkey>::empty(),
    {
        Entrants { total: 0, max, entrants: Vec::with_capacity(max as usize) }
    }

    /// The entry at `index`, when `index` is a filled position.
    pub fn get(&self, index: u32) -> (r: Option<Pubkey>)
        requires
            self.wf(),
        ensures
            index < self.total ==> r == Some(self.entrants@[index as int]),
            index >= self.total ==> r is None,
    {
        if index < self.total {
            Some(self.entrants[index as usize])
        } else {
            None
        }
    }

    /// Records one more entry for `entrant`, if the ledger has room.
    pub fn append(&mut self, entrant: Pubkey) -> (r: Result<(), RaffleError>)
        requires
            old(self).wf(),
        ensures
            final(self).wf(),
            final(self).max == old(self).max,
            old(self).total < old(self).max ==> {
                &&& r is Ok
                &&& final(self).total == old(self).total + 1
                &&& final(self).entrants@ == old(self).entrants@.push(entrant)
            },
            old(self).total >= old(self).max ==> {
                &&& r == Err::<(), RaffleError>(RaffleError::NotEnoughTicketsLeft)
                &&& *final(self) == *old(self)
            },
    {
        if self.total >= self.max {
            return Err(RaffleError::NotEnoughTicketsLeft);
        }
        self.entrants.push(entrant);
        self.total = self.total + 1;
        Ok(())
    }
}

} // verus!
