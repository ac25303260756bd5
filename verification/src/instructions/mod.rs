//! The four instructions of the vault, and what they have in common.

pub mod sol;
pub mod spl;

pub use sol::init_sol_vault::InitializeSolVault;
pub use sol::init_sol_vault::InitializeSolVaultAccounts;
pub use sol::init_sol_vault::InitializeSolVaultInstructionData;
pub use sol::withdraw_sol_vault::WithdrawSolVault;
pub use sol::withdraw_sol_vault::WithdrawSolVaultAccounts;
pub use spl::init_spl_vault::InitializeSplVault;
pub use spl::init_spl_vault::InitializeSplVaultAccounts;
pub use spl::init_spl_vault::InitializeSplVaultInstructionData;
pub use spl::withdraw_spl_vault::WithdrawSplVault;
pub use spl::withdraw_spl_vault::WithdrawSplVaultAccounts;

use vstd::prelude::*;
use crate::account::Account;
use crate::effect::effects_view;
use crate::effect::Effect;
use crate::effect::EffectView;
use crate::bytes::i64_from_le;
use crate::bytes::i64_from_le_bytes;
use crate::bytes::u64_from_le;
use crate::bytes::u64_from_le_bytes;
use crate::errors::vault_error;
use crate::errors::ProgramError;
use crate::errors::TimeBaseVaultError;
use crate::host::HostReads;
use crate::pubkey::Pubkey;
use crate::states::vault::stored_record;
use crate::states::vault::well_formed;

verus! {

/// The byte that marks the data of a holding account as withdrawn.
pub const TOMBSTONE: u8 = 0xff;

/// The number of bytes that the parameters of a deposit take: the amount,
/// the unlock time and the bump.
pub const DEPOSIT_DATA_LEN: usize = 17;

/// Why the accounts of a deposit are refused, if they are: the
/// instruction names `count` accounts, the first has signed, the second
/// may be changed and holds no data yet.
pub open spec fn deposit_accounts_rejection(accounts: Seq<Account>, count: nat) -> Option<
    ProgramError,
>
    recommends
        count >= 2,
{
    if accounts.len() != count {
        Some(ProgramError::NotEnoughAccountKeys)
    } else if !accounts[0].is_signer {
        Some(ProgramError::MissingRequiredSignature)
    } else if !accounts[1].is_writable {
        Some(ProgramError::InvalidAccountData)
    } else if accounts[1].data@.len() != 0 {
        Some(ProgramError::AccountAlreadyInitialized)
    } else {
        None
    }
}

/// Why the accounts of a withdrawal are refused, if they are: the
/// instruction names `count` accounts, the first has signed, the second
/// may be changed and holds data.
pub open spec fn withdrawal_accounts_rejection(accounts: Seq<Account>, count: nat) -> Option<
    ProgramError,
>
    recommends
        count >= 2,
{
    if accounts.len() != count {
        Some(ProgramError::NotEnoughAccountKeys)
    } else if !accounts[0].is_signer {
        Some(ProgramError::MissingRequiredSignature)
    } else if !accounts[1].is_writable {
        Some(ProgramError::InvalidAccountData)
    } else if accounts[1].data@.len() == 0 {
        Some(ProgramError::InvalidAccountData)
    } else {
        None
    }
}

/// The amount that the parameters `data` of a deposit give.
pub open spec fn deposit_amount(data: Seq<u8>) -> u64 {
    u64_from_le_bytes(data.subrange(0, 8))
}

/// The unlock time that the parameters `data` of a deposit give.
pub open spec fn deposit_unlock_timestamp(data: Seq<u8>) -> i64 {
    i64_from_le_bytes(data.subrange(8, 16))
}

/// The bump that the parameters `data` of a deposit give.
pub open spec fn deposit_bump(data: Seq<u8>) -> u8 {
    data[16]
}

/// Why a deposit into the account at `vault` is refused, if it is, once
/// its accounts and parameters have been read. The checks stand in the
/// order in which they are made: the clock, the unlock time, the amount,
/// the derived address, and the rent.
pub open spec fn deposit_rejection(
    amount: u64,
    unlock_timestamp: i64,
    vault: Pubkey,
    host: HostReads,
) -> Option<ProgramError> {
    if host.clock is Err {
        Some(host.clock->Err_0)
    } else if unlock_timestamp <= host.clock->Ok_0 {
        Some(vault_error(TimeBaseVaultError::UnlockTimestampMustBeInFuture))
    } else if amount == 0 {
        Some(vault_error(TimeBaseVaultError::AmountMustBeGreaterThanZero))
    } else if host.program_address is Err {
        Some(host.program_address->Err_0)
    } else if host.program_address->Ok_0 != vault {
        Some(ProgramError::InvalidAccountData)
    } else if host.rent_minimum is Err {
        Some(host.rent_minimum->Err_0)
    } else {
        None
    }
}

/// Why a withdrawal from a holding account that stores `data` is refused,
/// if it is, once its accounts have been read. `mint` is the token type
/// that the instruction names, where it withdraws tokens. The checks stand
/// in the order in which they are made: the clock, the record, the
/// depositor, the unlock time, and for a withdrawal of tokens the token
/// type.
pub open spec fn withdrawal_rejection(
    data: Seq<u8>,
    signer: Pubkey,
    mint: Option<Pubkey>,
    host: HostReads,
) -> Option<ProgramError> {
    let record = stored_record(data);
    if host.clock is Err {
        Some(host.clock->Err_0)
    } else if !well_formed(data) {
        Some(ProgramError::InvalidAccountData)
    } else if record.owner != signer@ {
        Some(vault_error(TimeBaseVaultError::Unauthorized))
    } else if record.unlock_timestamp > host.clock->Ok_0 {
        Some(vault_error(TimeBaseVaultError::VaultLocking))
    } else if mint is Some && record.mint != Some(mint->Some_0@) {
        Some(vault_error(TimeBaseVaultError::InvalidVaultMint))
    } else {
        None
    }
}

/// How a withdrawal ends the holding account at `vault`: the first byte
/// of its data is marked, the data is cut to one byte, the whole balance
/// goes to the depositor, and the account is closed.
pub open spec fn closing_effects(signer: Pubkey, vault: Pubkey, lamports: u64) -> Seq<
    EffectView,
> {
    seq![
        EffectView::WriteByte { account: vault, index: 0, value: TOMBSTONE },
        EffectView::Resize { account: vault, len: 1 },
        EffectView::Credit { account: signer, lamports },
        EffectView::Close { account: vault },
    ]
}

/// Puts the effects that end a holding account at the end of `effects`.
pub(crate) fn push_closing_effects(effects: &mut Vec<Effect>, signer: &Account, vault: &Account)
    ensures
        effects_view(final(effects)@) == effects_view(old(effects)@) + closing_effects(
            signer.key,
            vault.key,
            vault.lamports,
        ),
{
    effects.push(Effect::WriteByte { account: vault.key, index: 0, value: TOMBSTONE });
    effects.push(Effect::Resize { account: vault.key, len: 1 });
    effects.push(Effect::Credit { account: signer.key, lamports: vault.lamports });
    effects.push(Effect::Close { account: vault.key });
    assert(effects_view(effects@) =~= effects_view(old(effects)@) + closing_effects(
        signer.key,
        vault.key,
        vault.lamports,
    ));
}

/// Reads the parameters of a deposit: the amount, the unlock time and the
/// bump. There are none unless `data` has exactly their length.
pub(crate) fn read_deposit_data(data: &[u8]) -> (r: Option<(u64, i64, u8)>)
    ensures
        r is Some <==> data@.len() == DEPOSIT_DATA_LEN,
        r matches Some(fields) ==> fields.0 == deposit_amount(data@) && fields.1
            == deposit_unlock_timestamp(data@) && fields.2 == deposit_bump(data@),
{
    if data.len() != DEPOSIT_DATA_LEN {
        return None;
    }
    let mut amount: [u8; 8] = [0u8; 8];
    let mut unlock_timestamp: [u8; 8] = [0u8; 8];
    let mut i: usize = 0;
    while i < 8
        invariant
            i <= 8,
            data@.len() == DEPOSIT_DATA_LEN,
            forall|j: int| 0 <= j < i ==> amount@[j] == data@[j],
            forall|j: int| 0 <= j < i ==> unlock_timestamp@[j] == data@[8 + j],
        decreases 8 - i,
    {
        amount[i] = data[i];
        unlock_timestamp[i] = data[8 + i];
        i += 1;
    }
    assert(amount@ =~= data@.subrange(0, 8));
    assert(unlock_timestamp@ =~= data@.subrange(8, 16));
    Some((u64_from_le(&amount), i64_from_le(&unlock_timestamp), data[16]))
}

/// Holds the accounts of a deposit to the rules.
pub(crate) fn check_deposit_accounts(accounts: &[Account], count: usize) -> (r: Result<
    (),
    ProgramError,
>)
    requires
        count >= 2,
    ensures
        r is Ok <==> deposit_accounts_rejection(accounts@, count as nat) is None,
        r matches Err(e) ==> deposit_accounts_rejection(accounts@, count as nat) == Some(e),
{
    if accounts.len() != count {
        return Err(ProgramError::NotEnoughAccountKeys);
    }
    if !accounts[0].is_signer() {
        return Err(ProgramError::MissingRequiredSignature);
    }
    if !accounts[1].is_writable() {
        return Err(ProgramError::InvalidAccountData);
    }
    if !accounts[1].data_is_empty() {
        return Err(ProgramError::AccountAlreadyInitialized);
    }
    Ok(())
}

/// Holds the accounts of a withdrawal to the rules.
pub(crate) fn check_withdrawal_accounts(accounts: &[Account], count: usize) -> (r: Result<
    (),
    ProgramError,
>)
    requires
        count >= 2,
    ensures
        r is Ok <==> withdrawal_accounts_rejection(accounts@, count as nat) is None,
        r matches Err(e) ==> withdrawal_accounts_rejection(accounts@, count as nat) == Some(e),
{
    if accounts.len() != count {
        return Err(ProgramError::NotEnoughAccountKeys);
    }
    if !accounts[0].is_signer() {
        return Err(ProgramError::MissingRequiredSignature);
    }
    if !accounts[1].is_writable() {
        return Err(ProgramError::InvalidAccountData);
    }
    if accounts[1].data_is_empty() {
        return Err(ProgramError::InvalidAccountData);
    }
    Ok(())
}

} // verus!
