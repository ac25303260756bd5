//! The withdrawal of native balance.

use vstd::prelude::*;
use crate::account::Account;
use crate::effect::effects_view;
use crate::effect::Effect;
use crate::effect::EffectView;
use crate::errors::vault_error;
use crate::errors::ProgramError;
use crate::errors::TimeBaseVaultError;
use crate::host::HostReads;
use crate::instructions::check_withdrawal_accounts;
use crate::instructions::closing_effects;
use crate::instructions::push_closing_effects;
use crate::instructions::withdrawal_accounts_rejection;
use crate::instructions::withdrawal_rejection;
use crate::pubkey::pubkey_eq;
use crate::states::vault::stored_record;
use crate::states::vault::well_formed;
use crate::states::Vault;

verus! {

/// The accounts of a withdrawal of native balance.
pub struct WithdrawSolVaultAccounts<'info> {
    /// The account that asks for the deposit.
    pub signer: &'info Account,
    /// The account that holds the deposit.
    pub vault: &'info Account,
}

impl<'info> WithdrawSolVaultAccounts<'info> {
    /// The number of accounts that the instruction names: the signer and
    /// the holding account.
    pub const COUNT: usize = 2;

    /// Reads the accounts of the instruction and holds them to the rules:
    /// there are two, the first has signed, and the holding account may be
    /// changed and holds data.
    pub fn try_from(accounts: &'info [Account]) -> (r: Result<Self, ProgramError>)
        ensures
            r is Ok <==> withdrawal_accounts_rejection(accounts@, 2) is None,
            r matches Err(e) ==> withdrawal_accounts_rejection(accounts@, 2) == Some(e),
            r matches Ok(a) ==> *a.signer == accounts@[0] && *a.vault == accounts@[1],
    {
        match check_withdrawal_accounts(accounts, Self::COUNT) {
            Ok(()) => Ok(WithdrawSolVaultAccounts { signer: &accounts[0], vault: &accounts[1] }),
            Err(e) => Err(e),
        }
    }
}

/// A withdrawal of native balance whose accounts have been held to the
/// rules.
pub struct WithdrawSolVault<'info> {
    pub accounts: WithdrawSolVaultAccounts<'info>,
}

impl<'info> WithdrawSolVault<'info> {
    /// The opcode of the instruction.
    pub const DISCRIMINATOR: u8 = 1;

    /// Reads the instruction from its accounts. It has no parameters: the
    /// bytes that follow the opcode are not looked at.
    pub fn try_from(input: (&[u8], &'info [Account])) -> (r: Result<Self, ProgramError>)
        ensures
            r is Ok <==> withdrawal_accounts_rejection(input.1@, 2) is None,
            r matches Err(e) ==> withdrawal_accounts_rejection(input.1@, 2) == Some(e),
            r matches Ok(ix) ==> *ix.accounts.signer == input.1@[0] && *ix.accounts.vault
                == input.1@[1],
    {
        match WithdrawSolVaultAccounts::try_from(input.1) {
            Ok(accounts) => Ok(WithdrawSolVault { accounts }),
            Err(e) => Err(e),
        }
    }

    /// Why the withdrawal is refused, if it is.
    pub open spec fn rejection(&self, host: HostReads) -> Option<ProgramError> {
        withdrawal_rejection(self.accounts.vault.data@, self.accounts.signer.key, None, host)
    }

    /// What the withdrawal does where it is accepted: it ends the holding
    /// account, whose whole balance goes to the depositor.
    pub open spec fn effects(&self) -> Seq<EffectView> {
        closing_effects(
            self.accounts.signer.key,
            self.accounts.vault.key,
            self.accounts.vault.lamports,
        )
    }

    /// Decides the withdrawal. It is accepted if and only if the clock can
    /// be read, the holding account stores a record, the signer is the
    /// depositor of that record, and its unlock time is not later than the
    /// current time. Otherwise the first of these that fails is the
    /// reason, and nothing is to be done.
    pub fn process(&self, host: &HostReads) -> (r: Result<Vec<Effect>, ProgramError>)
        ensures
            r is Ok <==> self.rejection(*host) is None,
            r matches Err(e) ==> self.rejection(*host) == Some(e),
            r matches Ok(effects) ==> effects_view(effects@) == self.effects(),
            host.clock is Ok && well_formed(self.accounts.vault.data@) ==> {
                let record = stored_record(self.accounts.vault.data@);
                let now = host.clock->Ok_0;
                &&& record.owner != self.accounts.signer.key@ ==> r == Err::<
                    Vec<Effect>,
                    ProgramError,
                >(vault_error(TimeBaseVaultError::Unauthorized))
                &&& record.owner == self.accounts.signer.key@ && now < record.unlock_timestamp
                    ==> r == Err::<Vec<Effect>, ProgramError>(
                    vault_error(TimeBaseVaultError::VaultLocking),
                )
                &&& record.owner == self.accounts.signer.key@ && now >= record.unlock_timestamp
                    ==> r is Ok
            },
    {
        let current_timestamp = match host.clock {
            Ok(now) => now,
            Err(e) => {
                return Err(e);
            },
        };
        let vault = match Vault::from_bytes(self.accounts.vault.data.as_slice()) {
            Ok(vault) => vault,
            Err(e) => {
                return Err(e);
            },
        };
        let unlock_timestamp = vault.unlock_timestamp();
        if !pubkey_eq(&vault.owner, &self.accounts.signer.key) {
            return Err(ProgramError::from(TimeBaseVaultError::Unauthorized));
        }
        if unlock_timestamp > current_timestamp {
            return Err(ProgramError::from(TimeBaseVaultError::VaultLocking));
        }
        let mut effects: Vec<Effect> = Vec::new();
        push_closing_effects(&mut effects, self.accounts.signer, self.accounts.vault);
        assert(effects_view(effects@) =~= self.effects());
        Ok(effects)
    }
}

} // verus!
