//! Addresses of accounts.

use vstd::prelude::*;

verus! {

/// The address of an account on the ledger.
pub type Pubkey = [u8; 32];

/// The address of the vault program, which owns every holding account.
pub const ID: Pubkey = [
    2, 117, 246, 193, 209, 108, 134, 22, 85, 136, 194, 135, 98, 201, 29, 150,
    79, 76, 164, 8, 163, 127, 222, 201, 38, 126, 191, 185, 226, 228, 145, 32,
];

/// The address of the system program, which owns every account that no
/// other program has been given.
pub const SYSTEM_PROGRAM_ID: Pubkey = [
    0, 0, 0, 0, 0, 0, 0, 0, 0, 0, 0, 0, 0, 0, 0, 0,
    0, 0, 0, 0, 0, 0, 0, 0, 0, 0, 0, 0, 0, 0, 0, 0,
];

/// Whether two addresses are the same, byte for byte.
pub fn pubkey_eq(a: &Pubkey, b: &Pubkey) -> (same: bool)
    ensures
        same == (a@ == b@),
        same == (*a == *b),
{
    let mut i: usize = 0;
    while i < 32
        invariant
            i <= 32,
            forall|j: int| 0 <= j < i ==> a@[j] == b@[j],
        decreases 32 - i,
    {
        if a[i] != b[i] {
            return false;
        }
        i += 1;
    }
    assert(a@ =~= b@);
    assert(*a =~= *b);
    true
}

} // verus!
