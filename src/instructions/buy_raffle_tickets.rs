use vstd::prelude::*;

use crate::error::RaffleError;
use crate::state::{Entrants, Pubkey, Raffle};

verus! {

/// Price of `amount` tickets.
pub open spec fn ticket_cost(raffle: Raffle, amount: u32) -> int {
    raffle.ticket_lamports_price as int * amount as int
}

/// The authority's share of one purchase of `amount` tickets, rounded down.
pub open spec fn purchase_fee(raffle: Raffle, amount: u32) -> int {
    ticket_cost(raffle, amount) * raffle.authority_fee_percent as int / 100
}

/// Why a purchase of `amount` tickets at time `now` is refused, if it is.
pub open spec fn buy_error(raffle: Raffle, entrants: Entrants, amount: u32, now: i64) -> Option<
    RaffleError,
> {
    if now > raffle.end_timestamp {
        Some(RaffleError::RaffleEnded)
    } else if entrants.total >= entrants.max || entrants.total + amount > entrants.max {
        Some(RaffleError::NotEnoughTicketsLeft)
    } else if ticket_cost(raffle, amount) > u64::MAX || ticket_cost(raffle, amount)
        * raffle.authority_fee_percent as int > u64::MAX || purchase_fee(raffle, amount)
        > ticket_cost(raffle, amount) || raffle.accumulated_fees + purchase_fee(raffle, amount)
        > u64::MAX {
        Some(RaffleError::InvalidCalculation)
    } else {
        None
    }
}

/// `amount` copies of one entry.
pub open spec fn repeated(player: Pubkey, amount: nat) -> Seq<Pubkey> {
    Seq::new(amount, |i: int| player)
}

/// The records after `player` bought `amount` tickets: the ledger gained
/// `amount` entries for `player`, and the fee was added to the raffle's
/// accumulated fees; nothing else changed.
pub open spec fn purchase_applied(
    r0: Raffle,
    e0: Entrants,
    r1: Raffle,
    e1: Entrants,
    player: Pubkey,
    amount: u32,
) -> bool {
    &&& r1.accumulated_fees == r0.accumulated_fees + purchase_fee(r0, amount)
    &&& r1 == (Raffle { accumulated_fees: r1.accumulated_fees, ..r0 })
    &&& e1.max == e0.max
    &&& e1.total == e0.total + amount
    &&& e1.entrants@ == e0.entrants@ + repeated(player, amount as nat)
}

/// Sells `amount` tickets to `player` at time `now`. On success returns what
/// the buyer pays into escrow: the tickets' cost less the authority's fee.
pub fn handle_buy_raffle_tickets(
    raffle: &mut Raffle,
    entrants: &mut Entrants,
    player: Pubkey,
    amount: u32,
    now: i64,
) -> (r: Result<u64, RaffleError>)
    requires
        old(entrants).wf(),
    ensures
        final(entrants).wf(),
        old(raffle).wf() ==> final(raffle).wf(),
        match buy_error(*old(raffle), *old(entrants), amount, now) {
            Some(e) => {
                &&& r == Err::<u64, RaffleError>(e)
                &&& *final(raffle) == *old(raffle)
                &&& *final(entrants) == *old(entrants)
            },
            None => {
                &&& r == Ok::<u64, RaffleError>(
                    (ticket_cost(*old(raffle), amount) - purchase_fee(*old(raffle), amount)) as u64,
                )
                &&& purchase_applied(
                    *old(raffle),
                    *old(entrants),
                    *final(raffle),
                    *final(entrants),
                    player,
                    amount,
                )
            },
        },
        old(entrants).total >= old(entrants).max && now <= old(raffle).end_timestamp ==> r
            == Err::<u64, RaffleError>(RaffleError::NotEnoughTicketsLeft),
{
    if now > raffle.end_timestamp {
        return Err(RaffleError::RaffleEnded);
    }
    if entrants.total >= entrants.max || amount > entrants.max - entrants.total {
        return Err(RaffleError::NotEnoughTicketsLeft);
    }
    let total_cost = match raffle.ticket_lamports_price.checked_mul(amount as u64) {
        Some(v) => v,
        None => return Err(RaffleError::InvalidCalculation),
    };
    let scaled = match total_cost.checked_mul(raffle.authority_fee_percent as u64) {
        Some(v) => v,
        None => return Err(RaffleError::InvalidCalculation),
    };
    let authority_fee = scaled / 100;
    let user_ticket_price = match total_cost.checked_sub(authority_fee) {
        Some(v) => v,
        None => return Err(RaffleError::InvalidCalculation),
    };
    let accumulated_fees = match raffle.accumulated_fees.checked_add(authority_fee) {
        Some(v) => v,
        None => return Err(RaffleError::InvalidCalculation),
    };
    let ghost e0 = *entrants;
    let mut k: u32 = 0;
    while k < amount
        invariant
            0 <= k <= amount,
            entrants.wf(),
            entrants.max == e0.max,
            entrants.total == e0.total + k,
            e0.total + amount <= e0.max,
            entrants.entrants@ == e0.entrants@ + repeated(player, k as nat),
        decreases amount - k,
    {
        let appended = entrants.append(player);
        assert(appended is Ok);
        proof {
            assert(e0.entrants@ + repeated(player, (k + 1) as nat) =~= (e0.entrants@ + repeated(
                player,
                k as nat,
            )).push(player));
        }
        k = k + 1;
    }
    raffle.accumulated_fees = accumulated_fees;
    Ok(user_ticket_price)
}

} // verus!
