//! The record of one deposit, as the holding account stores it.

use vstd::prelude::*;
use crate::bytes::i64_from_le;
use crate::bytes::i64_from_le_bytes;
use crate::bytes::i64_le_bytes;
use crate::bytes::i64_to_le;
use crate::bytes::lemma_i64_le_bytes_of_value;
use crate::bytes::lemma_i64_le_round_trip;
use crate::bytes::lemma_u64_le_bytes_of_value;
use crate::bytes::lemma_u64_le_round_trip;
use crate::bytes::u64_from_le;
use crate::bytes::u64_from_le_bytes;
use crate::bytes::u64_le_bytes;
use crate::bytes::u64_to_le;
use crate::errors::ProgramError;
use crate::pubkey::pubkey_eq;
use crate::pubkey::Pubkey;

verus! {

/// The record of one deposit. The holding account stores its fields one
/// after the other, without padding, in the order in which they stand
/// here; the token type as one byte that says whether there is one (1) or
/// not (0), and thirty-two bytes for it.
#[derive(Clone, Copy, Debug, PartialEq, Eq)]
pub struct Vault {
    /// The depositor, who alone may withdraw.
    pub owner: Pubkey,
    /// The amount deposited, as little-endian bytes.
    pub amount: [u8; 8],
    /// The byte that makes the seeds derive a valid address.
    pub bump: [u8; 1],
    /// The time from which the deposit may be withdrawn, in seconds since
    /// the epoch, as little-endian bytes.
    pub unlock_timestamp: [u8; 8],
    /// The token type of the deposit; none where it is native balance.
    pub mint: Option<Pubkey>,
}

/// The record of one deposit, with its numbers read.
pub struct VaultView {
    /// The address of the depositor.
    pub owner: Seq<u8>,
    /// The amount deposited.
    pub amount: u64,
    /// The byte that makes the seeds derive a valid address.
    pub bump: u8,
    /// The time from which the deposit may be withdrawn.
    pub unlock_timestamp: i64,
    /// The address of the token type, if there is one.
    pub mint: Option<Seq<u8>>,
}

impl View for Vault {
    type V = VaultView;

    open spec fn view(&self) -> VaultView {
        VaultView {
            owner: self.owner@,
            amount: u64_from_le_bytes(self.amount@),
            bump: self.bump@[0],
            unlock_timestamp: i64_from_le_bytes(self.unlock_timestamp@),
            mint: match self.mint {
                Some(mint) => Some(mint@),
                None => None,
            },
        }
    }
}

/// The seeds from which the address of a holding account is derived: the
/// tag, the depositor, the token type if there is one, the amount, the
/// unlock time and the bump.
pub open spec fn vault_seeds(
    owner: Seq<u8>,
    mint: Option<Seq<u8>>,
    amount: u64,
    unlock_timestamp: i64,
    bump: u8,
) -> Seq<Seq<u8>> {
    let head = seq![Vault::SEED@, owner];
    let tail = seq![u64_le_bytes(amount), i64_le_bytes(unlock_timestamp), seq![bump]];
    match mint {
        Some(mint) => head + seq![mint] + tail,
        None => head + tail,
    }
}

/// The seeds from which the address of the holding account of `record` is
/// derived.
pub open spec fn record_seeds(record: VaultView) -> Seq<Seq<u8>> {
    vault_seeds(record.owner, record.mint, record.amount, record.unlock_timestamp, record.bump)
}

/// The bytes that store a record: the depositor, the amount, the bump, the
/// unlock time, then one byte that says whether there is a token type and
/// thirty-two bytes for it, which are zero where there is none.
pub open spec fn record_bytes(record: VaultView) -> Seq<u8> {
    record.owner + u64_le_bytes(record.amount) + seq![record.bump] + i64_le_bytes(
        record.unlock_timestamp,
    ) + match record.mint {
        Some(mint) => seq![1u8] + mint,
        None => seq![0u8] + Seq::new(32, |i: int| 0u8),
    }
}

/// The record that `data` stores, where it is well formed.
pub open spec fn stored_record(data: Seq<u8>) -> VaultView {
    VaultView {
        owner: data.subrange(0, 32),
        amount: u64_from_le_bytes(data.subrange(32, 40)),
        bump: data[40],
        unlock_timestamp: i64_from_le_bytes(data.subrange(41, 49)),
        mint: if data[49] == 1 {
            Some(data.subrange(50, 82))
        } else {
            None
        },
    }
}

/// Whether `data` stores a record at all: it has the length of one, and
/// its byte for the presence of a token type is 0 or 1.
pub open spec fn well_formed(data: Seq<u8>) -> bool {
    data.len() == Vault::LEN && data[49] <= 1
}

/// The bytes of `data` from `start` on, as many as the array holds.
fn read_array<const N: usize>(data: &[u8], start: usize) -> (bytes: [u8; N])
    requires
        start + N <= data@.len(),
    ensures
        bytes@ == data@.subrange(start as int, start + N),
{
    let mut bytes: [u8; N] = [0u8; N];
    let len = data.len();
    let mut i: usize = 0;
    while i < N
        invariant
            i <= N,
            start + N <= data@.len() == len,
            forall|j: int| 0 <= j < i ==> bytes@[j] == data@[start + j],
        decreases N - i,
    {
        bytes[i] = data[start + i];
        i += 1;
    }
    assert(bytes@ =~= data@.subrange(start as int, start + N));
    bytes
}

/// Puts `bytes` at the end of `out`.
fn append(out: &mut Vec<u8>, bytes: &[u8])
    ensures
        final(out)@ == old(out)@ + bytes@,
{
    let mut i: usize = 0;
    while i < bytes.len()
        invariant
            i <= bytes@.len(),
            out@ == old(out)@ + bytes@.subrange(0, i as int),
        decreases bytes@.len() - i,
    {
        out.push(bytes[i]);
        assert(out@ =~= old(out)@ + bytes@.subrange(0, i + 1));
        i += 1;
    }
    assert(bytes@.subrange(0, bytes@.len() as int) =~= bytes@);
}

/// The bytes of `bytes`, in a vector of their own.
fn to_vec(bytes: &[u8]) -> (out: Vec<u8>)
    ensures
        out@ == bytes@,
{
    let mut out: Vec<u8> = Vec::new();
    append(&mut out, bytes);
    assert(out@ =~= bytes@);
    out
}

/// Puts a seed that holds `bytes` at the end of `seeds`.
fn push_seed(seeds: &mut Vec<Vec<u8>>, bytes: &[u8])
    ensures
        final(seeds).deep_view() == old(seeds).deep_view().push(bytes@),
{
    let seed = to_vec(bytes);
    seeds.push(seed);
    assert(seeds.deep_view() =~= old(seeds).deep_view().push(bytes@)) by {
        assert(seeds@ == old(seeds)@.push(seed));
        assert(seeds.deep_view().len() == old(seeds).deep_view().len() + 1);
        assert forall|i: int| 0 <= i < seeds.deep_view().len() implies seeds.deep_view()[i]
            == old(seeds).deep_view().push(bytes@)[i] by {
            if i < old(seeds)@.len() {
                assert(seeds@[i] == old(seeds)@[i]);
            } else {
                assert(seeds@[i] == seed);
            }
        }
    }
}

impl Vault {
    /// The number of bytes that a record takes.
    pub const LEN: usize = 82;

    /// The tag that begins the seeds of every holding account.
    pub const SEED: [u8; 5] = [118, 97, 117, 108, 116];

    /// The bytes that store the record.
    pub open spec fn spec_bytes(&self) -> Seq<u8> {
        record_bytes(self@)
    }

    /// The record of a deposit of `amount` by `owner`, locked until
    /// `unlock_timestamp`.
    pub fn new(
        owner: Pubkey,
        amount: u64,
        bump: u8,
        unlock_timestamp: i64,
        mint: Option<Pubkey>,
    ) -> (vault: Vault)
        ensures
            vault@ == (VaultView {
                owner: owner@,
                amount,
                bump,
                unlock_timestamp,
                mint: match mint {
                    Some(mint) => Some(mint@),
                    None => None,
                },
            }),
            vault.amount@ == u64_le_bytes(amount),
            vault.unlock_timestamp@ == i64_le_bytes(unlock_timestamp),
    {
        proof {
            lemma_u64_le_round_trip(amount);
            lemma_i64_le_round_trip(unlock_timestamp);
        }
        Vault {
            owner,
            amount: u64_to_le(amount),
            bump: [bump],
            unlock_timestamp: i64_to_le(unlock_timestamp),
            mint,
        }
    }

    /// The amount deposited.
    pub fn amount(&self) -> (amount: u64)
        ensures
            amount == self@.amount,
    {
        u64_from_le(&self.amount)
    }

    /// The time from which the deposit may be withdrawn.
    pub fn unlock_timestamp(&self) -> (time: i64)
        ensures
            time == self@.unlock_timestamp,
    {
        i64_from_le(&self.unlock_timestamp)
    }

    /// The seeds from which the address of the holding account of a
    /// deposit is derived.
    pub fn seeds(
        signer: &Pubkey,
        amount: u64,
        unlock_timestamp: i64,
        bump: u8,
        mint: Option<Pubkey>,
    ) -> (seeds: Vec<Vec<u8>>)
        ensures
            seeds.deep_view() == vault_seeds(
                signer@,
                match mint {
                    Some(mint) => Some(mint@),
                    None => None,
                },
                amount,
                unlock_timestamp,
                bump,
            ),
    {
        let amount_bytes = u64_to_le(amount);
        let unlock_timestamp_bytes = i64_to_le(unlock_timestamp);
        let bump_binding: [u8; 1] = [bump];
        assert(bump_binding@ =~= seq![bump]);
        let mut seeds: Vec<Vec<u8>> = Vec::new();
        assert(seeds.deep_view() =~= Seq::<Seq<u8>>::empty());
        push_seed(&mut seeds, &Vault::SEED);
        push_seed(&mut seeds, signer);
        match mint {
            Some(mint) => {
                push_seed(&mut seeds, &mint);
            },
            None => {},
        }
        push_seed(&mut seeds, &amount_bytes);
        push_seed(&mut seeds, &unlock_timestamp_bytes);
        push_seed(&mut seeds, &bump_binding);
        assert(seeds.deep_view() =~= vault_seeds(
            signer@,
            match mint {
                Some(mint) => Some(mint@),
                None => None,
            },
            amount,
            unlock_timestamp,
            bump,
        ));
        seeds
    }

    /// Holds the address that the ledger derived from the seeds of a
    /// deposit against the address of the account that is to hold it.
    /// Where the ledger derived none, its reason is handed on; where it
    /// derived another address than `target`, the account's data is
    /// invalid.
    pub fn validate_pda(target: &Pubkey, derived: Result<Pubkey, ProgramError>) -> (r: Result<
        (),
        ProgramError,
    >)
        ensures
            r is Ok <==> derived == Ok::<Pubkey, ProgramError>(*target),
            derived matches Err(e) ==> r == Err::<(), ProgramError>(e),
            derived matches Ok(expected) && expected != *target ==> r == Err::<(), ProgramError>(
                ProgramError::InvalidAccountData,
            ),
    {
        match derived {
            Ok(expected) => {
                if !pubkey_eq(&expected, target) {
                    return Err(ProgramError::InvalidAccountData);
                }
                Ok(())
            },
            Err(e) => Err(e),
        }
    }

    /// The bytes that store the record.
    pub fn to_bytes(&self) -> (data: Vec<u8>)
        ensures
            data@ == record_bytes(self@),
            data@.len() == Vault::LEN,
    {
        let mut data: Vec<u8> = Vec::new();
        append(&mut data, &self.owner);
        append(&mut data, &self.amount);
        append(&mut data, &self.bump);
        append(&mut data, &self.unlock_timestamp);
        match &self.mint {
            Some(mint) => {
                data.push(1);
                append(&mut data, mint);
            },
            None => {
                data.push(0);
                let zero: Pubkey = [0u8; 32];
                append(&mut data, &zero);
                assert(zero@ =~= Seq::new(32, |i: int| 0u8));
            },
        }
        proof {
            lemma_u64_le_bytes_of_value(self.amount@);
            lemma_i64_le_bytes_of_value(self.unlock_timestamp@);
            assert(self.bump@ =~= seq![self.bump@[0]]);
            assert(data@ =~= record_bytes(self@));
        }
        data
    }

    /// The record that `data` stores. There is one if and only if `data`
    /// has the length of a record and its byte for the presence of a token
    /// type is 0 or 1; otherwise the account's data is invalid.
    pub fn from_bytes(data: &[u8]) -> (r: Result<Vault, ProgramError>)
        ensures
            r is Ok <==> well_formed(data@),
            r matches Ok(vault) ==> vault@ == stored_record(data@),
            r matches Ok(vault) ==> vault.amount@ == data@.subrange(32, 40)
                && vault.unlock_timestamp@ == data@.subrange(41, 49),
            r is Err ==> r->Err_0 == ProgramError::InvalidAccountData,
    {
        if data.len() != Vault::LEN {
            return Err(ProgramError::InvalidAccountData);
        }
        let flag = data[49];
        if flag > 1 {
            return Err(ProgramError::InvalidAccountData);
        }
        let owner: Pubkey = read_array(data, 0);
        let amount: [u8; 8] = read_array(data, 32);
        let bump: [u8; 1] = read_array(data, 40);
        let unlock_timestamp: [u8; 8] = read_array(data, 41);
        let mint: Option<Pubkey> = if flag == 1 {
            let mint: Pubkey = read_array(data, 50);
            Some(mint)
        } else {
            None
        };
        Ok(Vault { owner, amount, bump, unlock_timestamp, mint })
    }
}

/// A record takes as many bytes as its addresses and sixty-three more.
pub proof fn lemma_record_bytes_len(record: VaultView)
    requires
        record_wf(record),
    ensures
        record_bytes(record).len() == Vault::LEN,
{
}

/// Whether a record has addresses of the right length.
pub open spec fn record_wf(record: VaultView) -> bool {
    &&& record.owner.len() == 32
    &&& record.mint matches Some(mint) ==> mint.len() == 32
}

/// The bytes of a record are well formed, and they store that record.
pub proof fn lemma_record_round_trip(record: VaultView)
    requires
        record_wf(record),
    ensures
        well_formed(record_bytes(record)),
        stored_record(record_bytes(record)) == record,
{
    let data = record_bytes(record);
    lemma_u64_le_round_trip(record.amount);
    lemma_i64_le_round_trip(record.unlock_timestamp);
    assert(data.subrange(0, 32) =~= record.owner);
    assert(data.subrange(32, 40) =~= u64_le_bytes(record.amount));
    assert(data.subrange(41, 49) =~= i64_le_bytes(record.unlock_timestamp));
    match record.mint {
        Some(mint) => {
            assert(data.subrange(50, 82) =~= mint);
        },
        None => {},
    }
}

} // verus!
