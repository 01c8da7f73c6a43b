use vstd::prelude::*;

use crate::error::RaffleError;
use crate::state::{Entrants, Pubkey, Raffle};

verus! {

/// The value a successful claim moves out of escrow: the prize to the
/// winner and the accumulated fees to the authority.
#[derive(Clone, Copy, Debug, PartialEq, Eq, Structural)]
pub struct Payout {
    pub prize_lamports: u64,
    pub fee_lamports: u64,
}

/// Whether `player` holds the drawn entry.
pub open spec fn is_winner(raffle: Raffle, entrants: Entrants, player: Pubkey) -> bool {
    &&& raffle.randomness is Some
    &&& raffle.randomness->Some_0 < entrants.total
    &&& entrants.entrants@[raffle.randomness->Some_0 as int] == player
}

/// What the escrow holds beyond its retained minimum and the fees owed.
pub open spec fn prize_value(raffle: Raffle, raffle_lamports: u64, rent_minimum: u64) -> int {
    raffle_lamports - rent_minimum - raffle.accumulated_fees
}

/// Why a claim by `player` is refused, given the escrow's balance and retained minimum.
pub open spec fn claim_error(
    raffle: Raffle,
    entrants: Entrants,
    player: Pubkey,
    raffle_lamports: u64,
    rent_minimum: u64,
) -> Option<RaffleError> {
    if raffle.randomness is None {
        Some(RaffleError::WinnerNotDrawn)
    } else if raffle.claimed_prizes {
        Some(RaffleError::PrizeAlreadyClaimed)
    } else if !is_winner(raffle, entrants, player) {
        Some(RaffleError::NotWinner)
    } else if raffle_lamports < rent_minimum || prize_value(raffle, raffle_lamports, rent_minimum)
        < 0 {
        Some(RaffleError::InvalidCalculation)
    } else if prize_value(raffle, raffle_lamports, rent_minimum) == 0 {
        Some(RaffleError::NoPrize)
    } else {
        None
    }
}

/// Settles the raffle for its winner `player`: the escrow, holding
/// `raffle_lamports` of which `rent_minimum` must stay, pays the prize to the
/// winner and the fees to the authority, and the raffle is marked claimed.
pub fn handle_claim_raffle_prize(
    raffle: &mut Raffle,
    entrants: &Entrants,
    player: Pubkey,
    raffle_lamports: u64,
    rent_minimum: u64,
) -> (r: Result<Payout, RaffleError>)
    requires
        entrants.wf(),
    ensures
        old(raffle).wf() ==> final(raffle).wf(),
        match claim_error(*old(raffle), *entrants, player, raffle_lamports, rent_minimum) {
            Some(e) => r == Err::<Payout, RaffleError>(e) && *final(raffle) == *old(raffle),
            None => {
                &&& r == Ok::<Payout, RaffleError>(
                    Payout {
                        prize_lamports: prize_value(
                            *old(raffle),
                            raffle_lamports,
                            rent_minimum,
                        ) as u64,
                        fee_lamports: old(raffle).accumulated_fees,
                    },
                )
                &&& *final(raffle) == (Raffle { claimed_prizes: true, ..*old(raffle) })
            },
        },
{
    let randomness = match raffle.randomness {
        Some(index) => index,
        None => return Err(RaffleError::WinnerNotDrawn),
    };
    if raffle.claimed_prizes {
        return Err(RaffleError::PrizeAlreadyClaimed);
    }
    match entrants.get(randomness) {
        Some(winner) => {
            if !player.same_as(&winner) {
                return Err(RaffleError::NotWinner);
            }
        },
        None => return Err(RaffleError::NotWinner),
    }
    let prize_lamports = match raffle_lamports.checked_sub(rent_minimum) {
        Some(v) => match v.checked_sub(raffle.accumulated_fees) {
            Some(p) => p,
            None => return Err(RaffleError::InvalidCalculation),
        },
        None => return Err(RaffleError::InvalidCalculation),
    };
    if prize_lamports == 0 {
        return Err(RaffleError::NoPrize);
    }
    raffle.claimed_prizes = true;
    Ok(Payout { prize_lamports, fee_lamports: raffle.accumulated_fees })
}

} // verus!
