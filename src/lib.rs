//! A single-winner raffle escrow: a capped entrant ledger, a winner drawn
//! once from public randomness, a prize claimed once by the winner, and a
//! fee collected by the raffle's authority.

use vstd::prelude::*;

pub mod constants;
pub mod error;
pub mod state;
pub mod utils;
pub mod instructions;
pub mod laws;

use crate::error::RaffleError;
use crate::instructions::buy_raffle_tickets::{
    buy_error, handle_buy_raffle_tickets, purchase_applied, purchase_fee, ticket_cost,
};
use crate::instructions::claim_raffle_prize::{claim_error, handle_claim_raffle_prize, prize_value, Payout};
use crate::instructions::close_entrants::{close_error, handle_close_entrants};
use crate::instructions::create_raffle::{create_error, handle_create_raffle, new_raffle};
use crate::instructions::reveal_raffle_winner::{handle_reveal_raffle_winners, reveal_error};
use crate::state::{Entrants, Pubkey, Raffle};
use crate::utils::{blockhash_seed, winner_index};

verus! {

/// Opens a raffle for `authority`, with its ledger at `entrants_key`.
pub fn create_raffle(
    authority: Pubkey,
    entrants_key: Pubkey,
    bump: u8,
    now: i64,
    end_timestamp: i64,
    ticket_price: u64,
    max_entrants: u32,
    authority_fee_percent: u8,
) -> (r: Result<(Raffle, Entrants), RaffleError>)
    ensures
        match create_error(now, end_timestamp, ticket_price, max_entrants, authority_fee_percent) {
            Some(e) => r == Err::<(Raffle, Entrants), RaffleError>(e),
            None => {
                &&& r is Ok
                &&& r->Ok_0.0 == new_raffle(
                    authority,
                    entrants_key,
                    bump,
                    end_timestamp,
                    ticket_price,
                    authority_fee_percent,
                )
                &&& r->Ok_0.1.wf()
                &&& r->Ok_0.1.total == 0
                &&& r->Ok_0.1.max == max_entrants
                &&& r->Ok_0.1.entrants@ == Seq::<Pubkey>::empty()
            },
        },
{
    handle_create_raffle(
        authority,
        entrants_key,
        bump,
        now,
        end_timestamp,
        ticket_price,
        max_entrants,
        authority_fee_percent,
    )
}

/// Draws the winner; anyone may trigger it once the draw is open.
pub fn reveal_raffle_winners(
    raffle: &mut Raffle,
    entrants: &Entrants,
    recent_blockhashes_data: &[u8],
    now: i64,
) -> (r: Result<u32, RaffleError>)
    requires
        entrants.wf(),
    ensures
        match reveal_error(*old(raffle), *entrants, now, recent_blockhashes_data@) {
            Some(e) => r == Err::<u32, RaffleError>(e) && *final(raffle) == *old(raffle),
            None => {
                &&& r is Ok
                &&& r->Ok_0 as int == winner_index(
                    blockhash_seed(recent_blockhashes_data@)->Some_0,
                    entrants.total,
                )
                &&& *final(raffle) == (Raffle { randomness: Some(r->Ok_0), ..*old(raffle) })
            },
        },
{
    handle_reveal_raffle_winners(raffle, entrants, recent_blockhashes_data, now)
}

/// Claims the prize for `player`, with the fees bound for `authority`. A
/// fee recipient other than the raffle's own authority is refused before
/// anything else is looked at.
pub fn claim_raffle_prize(
    raffle: &mut Raffle,
    entrants: &Entrants,
    player: Pubkey,
    authority: Pubkey,
    raffle_lamports: u64,
    rent_minimum: u64,
) -> (r: Result<Payout, RaffleError>)
    requires
        entrants.wf(),
    ensures
        old(raffle).authority != authority ==> r == Err::<Payout, RaffleError>(
            RaffleError::Unauthorized,
        ) && *final(raffle) == *old(raffle),
        old(raffle).authority == authority ==> match claim_error(
            *old(raffle),
            *entrants,
            player,
            raffle_lamports,
            rent_minimum,
        ) {
            Some(e) => r == Err::<Payout, RaffleError>(e) && *final(raffle) == *old(raffle),
            None => {
                &&& r == Ok::<Payout, RaffleError>(
                    Payout {
                        prize_lamports: prize_value(
                            *old(raffle),
                            raffle_lamports,
                            rent_minimum,
                        ) as u64,
                        fee_lamports: old(raffle).accumulated_fees,
                    },
                )
                &&& *final(raffle) == (Raffle { claimed_prizes: true, ..*old(raffle) })
            },
        },
{
    if !raffle.authority.same_as(&authority) {
        return Err(RaffleError::Unauthorized);
    }
    handle_claim_raffle_prize(raffle, entrants, player, raffle_lamports, rent_minimum)
}

/// Sells `amount` tickets to `player`; returns what the buyer pays into escrow.
pub fn buy_tickets(
    raffle: &mut Raffle,
    entrants: &mut Entrants,
    player: Pubkey,
    amount: u32,
    now: i64,
) -> (r: Result<u64, RaffleError>)
    requires
        old(entrants).wf(),
    ensures
        final(entrants).wf(),
        match buy_error(*old(raffle), *old(entrants), amount, now) {
            Some(e) => {
                &&& r == Err::<u64, RaffleError>(e)
                &&& *final(raffle) == *old(raffle)
                &&& *final(entrants) == *old(entrants)
            },
            None => {
                &&& r == Ok::<u64, RaffleError>(
                    (ticket_cost(*old(raffle), amount) - purchase_fee(*old(raffle), amount)) as u64,
                )
                &&& purchase_applied(
                    *old(raffle),
                    *old(entrants),
                    *final(raffle),
                    *final(entrants),
                    player,
                    amount,
                )
            },
        },
{
    handle_buy_raffle_tickets(raffle, entrants, player, amount, now)
}

/// Decides whether `authority` may reclaim the ledger at time `now`.
pub fn close_entrants(raffle: &Raffle, authority: Pubkey, now: i64) -> (r: Result<(), RaffleError>)
    ensures
        match close_error(*raffle, authority, now) {
            Some(e) => r == Err::<(), RaffleError>(e),
            None => r is Ok,
        },
{
    handle_close_entrants(raffle, authority, now)
}

} // verus!
