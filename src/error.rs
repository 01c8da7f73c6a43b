use vstd::prelude::*;

verus! {

/// Every way an operation on a raffle can be refused.
#[derive(Debug, Clone, Copy, PartialEq, Eq, Structural)]
pub enum RaffleError {
    RaffleEnded,
    InvalidPrizeIndex,
    NotEnoughTicketsLeft,
    NoPrize,
    InvalidCalculation,
    InvalidEndTimestamp,
    InvalidTicketPrice,
    InvalidMaxEntrants,
    InvalidAuthorityFeePercent,
    RaffleStillRunning,
    WinnersAlreadyDrawn,
    WinnerNotDrawn,
    NotWinner,
    Unauthorized,
    PrizeNotClaimed,
    PrizeAlreadyClaimed,
    /// The randomness source holds no usable seed.
    InvalidAccountData,
}

} // verus!

verus! {

/// The broad classes into which refusals fall.
#[derive(Debug, Clone, Copy, PartialEq, Eq, Structural)]
pub enum ErrorKind {
    TimingViolation,
    CapacityExceeded,
    InvalidConfiguration,
    ArithmeticOverflow,
    AuthorizationFailure,
    StateConflict,
    DataUnavailable,
}

pub open spec fn kind_of(e: RaffleError) -> ErrorKind {
    match e {
        RaffleError::RaffleEnded => ErrorKind::TimingViolation,
        RaffleError::RaffleStillRunning => ErrorKind::TimingViolation,
        RaffleError::NotEnoughTicketsLeft => ErrorKind::CapacityExceeded,
        RaffleError::InvalidEndTimestamp => ErrorKind::InvalidConfiguration,
        RaffleError::InvalidTicketPrice => ErrorKind::InvalidConfiguration,
        RaffleError::InvalidMaxEntrants => ErrorKind::InvalidConfiguration,
        RaffleError::InvalidAuthorityFeePercent => ErrorKind::InvalidConfiguration,
        RaffleError::InvalidCalculation => ErrorKind::ArithmeticOverflow,
        RaffleError::NotWinner => ErrorKind::AuthorizationFailure,
        RaffleError::Unauthorized => ErrorKind::AuthorizationFailure,
        RaffleError::WinnersAlreadyDrawn => ErrorKind::StateConflict,
        RaffleError::WinnerNotDrawn => ErrorKind::StateConflict,
        RaffleError::PrizeNotClaimed => ErrorKind::StateConflict,
        RaffleError::PrizeAlreadyClaimed => ErrorKind::StateConflict,
        RaffleError::NoPrize => ErrorKind::StateConflict,
        RaffleError::InvalidPrizeIndex => ErrorKind::StateConflict,
        RaffleError::InvalidAccountData => ErrorKind::DataUnavailable,
    }
}

impl RaffleError {
    /// The class this refusal belongs to.
    pub fn kind(&self) -> (r: ErrorKind)
        ensures
            r == kind_of(*self),
    {
        match self {
            RaffleError::RaffleEnded => ErrorKind::TimingViolation,
            RaffleError::RaffleStillRunning => ErrorKind::TimingViolation,
            RaffleError::NotEnoughTicketsLeft => ErrorKind::CapacityExceeded,
            RaffleError::InvalidEndTimestamp => ErrorKind::InvalidConfiguration,
            RaffleError::InvalidTicketPrice => ErrorKind::InvalidConfiguration,
            RaffleError::InvalidMaxEntrants => ErrorKind::InvalidConfiguration,
            RaffleError::InvalidAuthorityFeePercent => ErrorKind::InvalidConfiguration,
            RaffleError::InvalidCalculation => ErrorKind::ArithmeticOverflow,
            RaffleError::NotWinner => ErrorKind::AuthorizationFailure,
            RaffleError::Unauthorized => ErrorKind::AuthorizationFailure,
            RaffleError::WinnersAlreadyDrawn => ErrorKind::StateConflict,
            RaffleError::WinnerNotDrawn => ErrorKind::StateConflict,
            RaffleError::PrizeNotClaimed => ErrorKind::StateConflict,
            RaffleError::PrizeAlreadyClaimed => ErrorKind::StateConflict,
            RaffleError::NoPrize => ErrorKind::StateConflict,
            RaffleError::InvalidPrizeIndex => ErrorKind::StateConflict,
            RaffleError::InvalidAccountData => ErrorKind::DataUnavailable,
        }
    }
}

} // verus!
