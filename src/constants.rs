use vstd::prelude::*;

verus! {

/// Largest number of entries a ledger may be created with.
pub const ENTRANTS_SIZE: u32 = 5000;

/// Grace period, in seconds, between the end of ticket sales and the moment
/// a winner may be drawn or the ledger reclaimed.
pub const TIME_BUFFER: i64 = 20;

} // verus!
