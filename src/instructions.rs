//! The operations that drive a raffle through its lifecycle. Each takes the
//! records it works on and the facts the host supplies (the caller, the
//! clock, balances) as plain values, and either applies its whole effect or
//! refuses with the records untouched.

pub mod buy_raffle_tickets;
pub mod claim_raffle_prize;
pub mod close_entrants;
pub mod create_raffle;
pub mod reveal_raffle_winner;
