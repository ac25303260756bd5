//! The deposit of native balance.

use vstd::prelude::*;
use crate::account::Account;
use crate::effect::effects_view;
use crate::effect::Effect;
use crate::effect::EffectView;
use crate::errors::vault_error;
use crate::errors::ProgramError;
use crate::errors::TimeBaseVaultError;
use crate::host::HostReads;
use crate::instructions::check_deposit_accounts;
use crate::instructions::deposit_accounts_rejection;
use crate::instructions::deposit_amount;
use crate::instructions::deposit_bump;
use crate::instructions::deposit_rejection;
use crate::instructions::deposit_unlock_timestamp;
use crate::instructions::read_deposit_data;
use crate::pubkey::Pubkey;
use crate::pubkey::ID;
use crate::states::vault::record_bytes;
use crate::states::vault::vault_seeds;
use crate::states::Vault;
use crate::states::VaultView;

verus! {

/// The accounts of a deposit of native balance.
pub struct InitializeSolVaultAccounts<'info> {
    /// The depositor.
    pub signer: &'info Account,
    /// The account that is to hold the deposit.
    pub vault: &'info Account,
}

impl<'info> InitializeSolVaultAccounts<'info> {
    /// The number of accounts that the instruction names: the depositor,
    /// the holding account and the system program.
    pub const COUNT: usize = 3;

    /// Reads the accounts of the instruction and holds them to the rules:
    /// there are three, the depositor has signed, and the holding account
    /// may be changed and holds no data yet.
    pub fn try_from(accounts: &'info [Account]) -> (r: Result<Self, ProgramError>)
        ensures
            r is Ok <==> deposit_accounts_rejection(accounts@, 3) is None,
            r matches Err(e) ==> deposit_accounts_rejection(accounts@, 3) == Some(e),
            r matches Ok(a) ==> *a.signer == accounts@[0] && *a.vault == accounts@[1],
    {
        match check_deposit_accounts(accounts, Self::COUNT) {
            Ok(()) => Ok(InitializeSolVaultAccounts { signer: &accounts[0], vault: &accounts[1] }),
            Err(e) => Err(e),
        }
    }
}

/// The parameters of a deposit of native balance.
#[derive(Clone, Copy, Debug, PartialEq, Eq)]
pub struct InitializeSolVaultInstructionData {
    /// The amount to deposit.
    pub amount: u64,
    /// The time from which the deposit may be withdrawn, in seconds since
    /// the epoch.
    pub unlock_timestamp: i64,
    /// The byte that makes the seeds derive a valid address.
    pub bump: u8,
}

impl InitializeSolVaultInstructionData {
    /// The number of bytes that the parameters take.
    pub const LEN: usize = 17;

    /// Reads the parameters from the bytes that follow the opcode: the
    /// amount and the unlock time as little-endian numbers of eight bytes
    /// each, then the bump. Bytes of any other length are refused.
    pub fn try_from(data: &[u8]) -> (r: Result<Self, ProgramError>)
        ensures
            r is Ok <==> data@.len() == 17,
            r is Err ==> r->Err_0 == ProgramError::InvalidInstructionData,
            r matches Ok(d) ==> d.amount == deposit_amount(data@) && d.unlock_timestamp
                == deposit_unlock_timestamp(data@) && d.bump == deposit_bump(data@),
    {
        match read_deposit_data(data) {
            Some((amount, unlock_timestamp, bump)) => Ok(
                InitializeSolVaultInstructionData { amount, unlock_timestamp, bump },
            ),
            None => Err(ProgramError::InvalidInstructionData),
        }
    }
}

/// A deposit of native balance that has been read and whose accounts have
/// been held to the rules.
pub struct InitializeSolVault<'info> {
    pub accounts: InitializeSolVaultAccounts<'info>,
    pub instruction_data: InitializeSolVaultInstructionData,
}

impl<'info> InitializeSolVault<'info> {
    /// The opcode of the instruction.
    pub const DISCRIMINATOR: u8 = 0;

    /// Reads the instruction from the bytes that follow the opcode and
    /// from its accounts. The accounts are looked at first.
    pub fn try_from(input: (&[u8], &'info [Account])) -> (r: Result<Self, ProgramError>)
        ensures
            ({
                let data = input.0;
                let accounts = input.1;
                &&& r is Ok <==> deposit_accounts_rejection(accounts@, 3) is None && data@.len()
                    == 17
                &&& r matches Err(e) ==> e == match deposit_accounts_rejection(accounts@, 3) {
                    Some(rejection) => rejection,
                    None => ProgramError::InvalidInstructionData,
                }
                &&& r matches Ok(ix) ==> {
                    &&& *ix.accounts.signer == accounts@[0]
                    &&& *ix.accounts.vault == accounts@[1]
                    &&& ix.instruction_data.amount == deposit_amount(data@)
                    &&& ix.instruction_data.unlock_timestamp == deposit_unlock_timestamp(data@)
                    &&& ix.instruction_data.bump == deposit_bump(data@)
                }
            }),
    {
        let (data, accounts) = input;
        let accounts = match InitializeSolVaultAccounts::try_from(accounts) {
            Ok(accounts) => accounts,
            Err(e) => {
                return Err(e);
            },
        };
        let instruction_data = match InitializeSolVaultInstructionData::try_from(data) {
            Ok(instruction_data) => instruction_data,
            Err(e) => {
                return Err(e);
            },
        };
        Ok(InitializeSolVault { accounts, instruction_data })
    }

    /// The record that the deposit writes into the holding account.
    pub open spec fn record(&self) -> VaultView {
        VaultView {
            owner: self.accounts.signer.key@,
            amount: self.instruction_data.amount,
            bump: self.instruction_data.bump,
            unlock_timestamp: self.instruction_data.unlock_timestamp,
            mint: None,
        }
    }

    /// The seeds from which the address of the holding account is
    /// derived.
    pub open spec fn spec_seeds(&self) -> Seq<Seq<u8>> {
        vault_seeds(
            self.accounts.signer.key@,
            None,
            self.instruction_data.amount,
            self.instruction_data.unlock_timestamp,
            self.instruction_data.bump,
        )
    }

    /// Why the deposit is refused, if it is.
    pub open spec fn rejection(&self, host: HostReads) -> Option<ProgramError> {
        deposit_rejection(
            self.instruction_data.amount,
            self.instruction_data.unlock_timestamp,
            self.accounts.vault.key,
            host,
        )
    }

    /// What the deposit does where it is accepted: the holding account is
    /// created with room for one record and the balance that exempts it
    /// from rent, the record is written, and the amount moves from the
    /// depositor to the holding account.
    pub open spec fn effects(&self, host: HostReads) -> Seq<EffectView> {
        seq![
            EffectView::CreateAccount {
                from: self.accounts.signer.key,
                to: self.accounts.vault.key,
                lamports: host.rent_minimum->Ok_0,
                space: 82,
                owner: ID,
                signer_seeds: self.spec_seeds(),
            },
            EffectView::WriteData {
                account: self.accounts.vault.key,
                data: record_bytes(self.record()),
            },
            EffectView::Transfer {
                from: self.accounts.signer.key,
                to: self.accounts.vault.key,
                lamports: self.instruction_data.amount,
            },
        ]
    }

    /// The seeds from which the address of the holding account is
    /// derived. The ledger's answer for them is what `process` expects as
    /// the derived address.
    pub fn seeds(&self) -> (seeds: Vec<Vec<u8>>)
        ensures
            seeds.deep_view() == self.spec_seeds(),
    {
        Vault::seeds(
            &self.accounts.signer.key,
            self.instruction_data.amount,
            self.instruction_data.unlock_timestamp,
            self.instruction_data.bump,
            None,
        )
    }

    /// Decides the deposit. It is accepted if and only if the clock can be
    /// read, the unlock time is later than the current time, the amount is
    /// not zero, the address derived from the seeds of the deposit is that
    /// of the holding account, and the rent can be read. Otherwise the
    /// first of these that fails is the reason, and nothing is to be done.
    pub fn process(&self, host: &HostReads) -> (r: Result<Vec<Effect>, ProgramError>)
        ensures
            r is Ok <==> self.rejection(*host) is None,
            r matches Err(e) ==> self.rejection(*host) == Some(e),
            r matches Ok(effects) ==> effects_view(effects@) == self.effects(*host),
            self.instruction_data.amount == 0 ==> r is Err,
            host.program_address != Ok::<Pubkey, ProgramError>(self.accounts.vault.key) ==> r
                is Err,
            host.clock matches Ok(now) ==> {
                let amount = self.instruction_data.amount;
                let unlock_timestamp = self.instruction_data.unlock_timestamp;
                &&& unlock_timestamp <= now ==> r == Err::<Vec<Effect>, ProgramError>(
                    vault_error(TimeBaseVaultError::UnlockTimestampMustBeInFuture),
                )
                &&& unlock_timestamp > now && amount == 0 ==> r == Err::<
                    Vec<Effect>,
                    ProgramError,
                >(vault_error(TimeBaseVaultError::AmountMustBeGreaterThanZero))
                &&& unlock_timestamp > now && amount > 0 && host.program_address is Ok
                    && host.program_address->Ok_0 != self.accounts.vault.key ==> r == Err::<
                    Vec<Effect>,
                    ProgramError,
                >(ProgramError::InvalidAccountData)
            },
    {
        let current_timestamp = match host.clock {
            Ok(now) => now,
            Err(e) => {
                return Err(e);
            },
        };
        let unlock_timestamp = self.instruction_data.unlock_timestamp;
        let amount = self.instruction_data.amount;
        if unlock_timestamp <= current_timestamp {
            return Err(ProgramError::from(TimeBaseVaultError::UnlockTimestampMustBeInFuture));
        }
        if amount == 0 {
            return Err(ProgramError::from(TimeBaseVaultError::AmountMustBeGreaterThanZero));
        }
        match Vault::validate_pda(&self.accounts.vault.key, host.program_address) {
            Ok(()) => {},
            Err(e) => {
                return Err(e);
            },
        }
        let lamports = match host.rent_minimum {
            Ok(lamports) => lamports,
            Err(e) => {
                return Err(e);
            },
        };
        let record = Vault::new(
            self.accounts.signer.key,
            amount,
            self.instruction_data.bump,
            unlock_timestamp,
            None,
        );
        let mut effects: Vec<Effect> = Vec::new();
        effects.push(
            Effect::CreateAccount {
                from: self.accounts.signer.key,
                to: self.accounts.vault.key,
                lamports,
                space: 82,
                owner: ID,
                signer_seeds: self.seeds(),
            },
        );
        effects.push(Effect::WriteData { account: self.accounts.vault.key, data: record.to_bytes() });
        effects.push(
            Effect::Transfer {
                from: self.accounts.signer.key,
                to: self.accounts.vault.key,
                lamports: amount,
            },
        );
        assert(effects@.len() == 3);
        assert(effects@[0]@ == self.effects(*host)[0]);
        assert(effects@[1]@ == self.effects(*host)[1]);
        assert(effects@[2]@ == self.effects(*host)[2]);
        assert(effects_view(effects@) =~= self.effects(*host));
        Ok(effects)
    }
}

} // verus!
