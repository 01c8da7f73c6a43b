//! Properties of the raffle that span several operations or all inputs,
//! stated over the same spec functions as the operations' contracts.

use vstd::prelude::*;

use crate::constants::ENTRANTS_SIZE;
use crate::error::{kind_of, ErrorKind, RaffleError};
use crate::instructions::buy_raffle_tickets::{buy_error, purchase_applied};
use crate::instructions::claim_raffle_prize::{claim_error, is_winner};
use crate::instructions::close_entrants::close_error;
use crate::instructions::create_raffle::create_error;
use crate::instructions::reveal_raffle_winner::{draw_opens, reveal_error};
use crate::state::{Entrants, Pubkey, Raffle};
use crate::utils::winner_index;

verus! {

/// Number of tickets in a run of purchases.
pub open spec fn batch_total(batches: Seq<u32>) -> int
    decreases batches.len(),
{
    if batches.len() == 0 {
        0
    } else {
        batch_total(batches.drop_last()) + batches.last() as int
    }
}

/// Fees owed after a run of purchases at `price` and `fee_percent`: each
/// purchase's fee is rounded down on its own, then the fees are summed.
pub open spec fn batch_fees(price: u64, fee_percent: u8, batches: Seq<u32>) -> int
    decreases batches.len(),
{
    if batches.len() == 0 {
        0
    } else {
        batch_fees(price, fee_percent, batches.drop_last()) + price as int * batches.last() as int
            * fee_percent as int / 100
    }
}

/// After a run of purchases from a fresh raffle, the ledger holds as many
/// entries as were bought, and the accumulated fees are the sum of the
/// per-purchase fees, each truncated separately.
pub proof fn lemma_purchases_accumulate(
    raffles: Seq<Raffle>,
    ledgers: Seq<Entrants>,
    players: Seq<Pubkey>,
    batches: Seq<u32>,
)
    requires
        raffles.len() == batches.len() + 1,
        ledgers.len() == batches.len() + 1,
        players.len() == batches.len(),
        raffles[0].accumulated_fees == 0,
        ledgers[0].total == 0,
        forall|i: int|
            0 <= i < batches.len() ==> #[trigger] purchase_applied(
                raffles[i],
                ledgers[i],
                raffles[i + 1],
                ledgers[i + 1],
                players[i],
                batches[i],
            ),
    ensures
        ledgers.last().total == batch_total(batches),
        raffles.last().accumulated_fees == batch_fees(
            raffles[0].ticket_lamports_price,
            raffles[0].authority_fee_percent,
            batches,
        ),
        raffles.last().ticket_lamports_price == raffles[0].ticket_lamports_price,
        raffles.last().authority_fee_percent == raffles[0].authority_fee_percent,
    decreases batches.len(),
{
    if batches.len() > 0 {
        let n = batches.len() - 1;
        assert(purchase_applied(
            raffles[n],
            ledgers[n],
            raffles[n + 1],
            ledgers[n + 1],
            players[n],
            batches[n],
        ));
        let rs = raffles.drop_last();
        let ls = ledgers.drop_last();
        let ps = players.drop_last();
        let bs = batches.drop_last();
        assert forall|i: int| 0 <= i < bs.len() implies #[trigger] purchase_applied(
            rs[i],
            ls[i],
            rs[i + 1],
            ls[i + 1],
            ps[i],
            bs[i],
        ) by {
            assert(purchase_applied(
                raffles[i],
                ledgers[i],
                raffles[i + 1],
                ledgers[i + 1],
                players[i],
                batches[i],
            ));
        }
        lemma_purchases_accumulate(rs, ls, ps, bs);
    }
}

/// A purchase against a full ledger, before the raffle ends, is refused for
/// want of capacity, whatever the amount.
pub proof fn lemma_full_ledger_refuses(raffle: Raffle, entrants: Entrants, amount: u32, now: i64)
    requires
        entrants.wf(),
        entrants.total == entrants.max,
        now <= raffle.end_timestamp,
    ensures
        buy_error(raffle, entrants, amount, now) == Some(RaffleError::NotEnoughTicketsLeft),
        kind_of(RaffleError::NotEnoughTicketsLeft) == ErrorKind::CapacityExceeded,
{
}

/// Once a draw has succeeded, any later draw is refused as already drawn,
/// however the ledger or the randomness source look by then.
pub proof fn lemma_second_reveal_refused(
    first: Raffle,
    entrants: Entrants,
    now: i64,
    data: Seq<u8>,
    winner: u32,
    later_entrants: Entrants,
    later: i64,
    later_data: Seq<u8>,
)
    requires
        reveal_error(first, entrants, now, data) is None,
        later >= now,
        later_entrants.total >= entrants.total,
    ensures
        reveal_error(
            Raffle { randomness: Some(winner), ..first },
            later_entrants,
            later,
            later_data,
        ) == Some(RaffleError::WinnersAlreadyDrawn),
        kind_of(RaffleError::WinnersAlreadyDrawn) == ErrorKind::StateConflict,
{
    let drawn = Raffle { randomness: Some(winner), ..first };
    assert(draw_opens(drawn) == draw_opens(first));
}

/// The drawn index always lies below the population it was drawn from.
pub proof fn lemma_winner_in_range(seed: Seq<u8>, population: u32)
    requires
        population > 0,
    ensures
        0 <= winner_index(seed, population) < population,
{
}

/// A claim by anyone but the holder of the drawn entry is always refused;
/// once the winner is drawn and the prize unclaimed, it is refused as coming
/// from someone who did not win.
pub proof fn lemma_only_winner_claims(
    raffle: Raffle,
    entrants: Entrants,
    player: Pubkey,
    raffle_lamports: u64,
    rent_minimum: u64,
)
    requires
        !is_winner(raffle, entrants, player),
    ensures
        claim_error(raffle, entrants, player, raffle_lamports, rent_minimum) is Some,
        raffle.randomness is Some && !raffle.claimed_prizes ==> claim_error(
            raffle,
            entrants,
            player,
            raffle_lamports,
            rent_minimum,
        ) == Some(RaffleError::NotWinner),
        kind_of(RaffleError::NotWinner) == ErrorKind::AuthorizationFailure,
{
}

/// The ledger can never be reclaimed before the prize is claimed; for the
/// authority, after the draw, the refusal is for the unclaimed prize, at any
/// time past the draw's opening.
pub proof fn lemma_no_teardown_before_claim(raffle: Raffle, authority: Pubkey, now: i64)
    requires
        !raffle.claimed_prizes,
    ensures
        close_error(raffle, authority, now) is Some,
        raffle.authority == authority && draw_opens(raffle) <= now && raffle.randomness is Some
            ==> close_error(raffle, authority, now) == Some(RaffleError::PrizeNotClaimed),
        kind_of(RaffleError::PrizeNotClaimed) == ErrorKind::StateConflict,
{
}

/// Each invalid creation parameter, alone, is refused with its own error;
/// creation is refused exactly when some parameter is invalid, and every
/// such refusal is a configuration error.
pub proof fn lemma_invalid_configuration_refused(
    now: i64,
    end_timestamp: i64,
    ticket_price: u64,
    max_entrants: u32,
    authority_fee_percent: u8,
)
    ensures
        end_timestamp <= now ==> create_error(
            now,
            end_timestamp,
            ticket_price,
            max_entrants,
            authority_fee_percent,
        ) == Some(RaffleError::InvalidEndTimestamp),
        now < end_timestamp && ticket_price == 0 ==> create_error(
            now,
            end_timestamp,
            ticket_price,
            max_entrants,
            authority_fee_percent,
        ) == Some(RaffleError::InvalidTicketPrice),
        now < end_timestamp && ticket_price > 0 && (max_entrants == 0 || max_entrants
            > ENTRANTS_SIZE) ==> create_error(
            now,
            end_timestamp,
            ticket_price,
            max_entrants,
            authority_fee_percent,
        ) == Some(RaffleError::InvalidMaxEntrants),
        now < end_timestamp && ticket_price > 0 && 0 < max_entrants <= ENTRANTS_SIZE && (
        authority_fee_percent == 0 || authority_fee_percent > 100) ==> create_error(
            now,
            end_timestamp,
            ticket_price,
            max_entrants,
            authority_fee_percent,
        ) == Some(RaffleError::InvalidAuthorityFeePercent),
        create_error(now, end_timestamp, ticket_price, max_entrants, authority_fee_percent)
            is Some <==> (end_timestamp <= now || ticket_price == 0 || max_entrants == 0
            || max_entrants > ENTRANTS_SIZE || authority_fee_percent == 0 || authority_fee_percent
            > 100),
        create_error(now, end_timestamp, ticket_price, max_entrants, authority_fee_percent)
            is Some ==> kind_of(
            create_error(
                now,
                end_timestamp,
                ticket_price,
                max_entrants,
                authority_fee_percent,
            )->Some_0,
        ) == ErrorKind::InvalidConfiguration,
{
}

} // verus!
