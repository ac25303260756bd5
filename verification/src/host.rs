//! What the ledger answers when an instruction asks it something.

use vstd::prelude::*;
use crate::errors::ProgramError;
use crate::pubkey::Pubkey;

verus! {

/// The ledger's answers to the questions that an instruction may ask
/// before it changes anything. Each is the answer or the reason why the
/// ledger gave none. An instruction looks only at those it needs, in the
/// order in which it would have asked.
#[derive(Clone, Copy, Debug, PartialEq, Eq)]
pub struct HostReads {
    /// The current time, in seconds since the epoch.
    pub clock: Result<i64, ProgramError>,
    /// The address that the seeds of the instruction derive under the
    /// vault program's address. Only a deposit has such seeds.
    pub program_address: Result<Pubkey, ProgramError>,
    /// The least balance that exempts a holding account from rent.
    pub rent_minimum: Result<u64, ProgramError>,
}

} // verus!
