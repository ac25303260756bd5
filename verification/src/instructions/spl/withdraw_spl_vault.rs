//! The withdrawal of tokens.

use vstd::prelude::*;
use crate::account::Account;
use crate::effect::effects_view;
use crate::effect::Effect;
use crate::effect::EffectView;
use crate::errors::vault_error;
use crate::errors::ProgramError;
use crate::errors::TimeBaseVaultError;
use crate::host::HostReads;
use crate::instructions::check_withdrawal_accounts;
use crate::instructions::closing_effects;
use crate::instructions::push_closing_effects;
use crate::instructions::withdrawal_accounts_rejection;
use crate::instructions::withdrawal_rejection;
use crate::pubkey::pubkey_eq;
use crate::states::vault::record_seeds;
use crate::states::vault::stored_record;
use crate::states::vault::well_formed;
use crate::states::Vault;

verus! {

/// The accounts of a withdrawal of tokens.
pub struct WithdrawSplVaultAccounts<'info> {
    /// The account that asks for the deposit.
    pub signer: &'info Account,
    /// The account that holds the record of the deposit.
    pub vault: &'info Account,
    /// The token type.
    pub mint: &'info Account,
    /// The depositor's token account.
    pub user_ata: &'info Account,
    /// The token account of the vault, which holds the tokens.
    pub vault_ata: &'info Account,
    /// The token program.
    pub token_program: &'info Account,
}

impl<'info> WithdrawSplVaultAccounts<'info> {
    /// The number of accounts that the instruction names; the last is
    /// not looked at.
    pub const COUNT: usize = 7;

    /// Reads the accounts of the instruction and holds them to the rules:
    /// there are seven, the first has signed, and the holding account may
    /// be changed and holds data.
    pub fn try_from(accounts: &'info [Account]) -> (r: Result<Self, ProgramError>)
        ensures
            r is Ok <==> withdrawal_accounts_rejection(accounts@, 7) is None,
            r matches Err(e) ==> withdrawal_accounts_rejection(accounts@, 7) == Some(e),
            r matches Ok(a) ==> {
                &&& *a.signer == accounts@[0]
                &&& *a.vault == accounts@[1]
                &&& *a.mint == accounts@[2]
                &&& *a.user_ata == accounts@[3]
                &&& *a.vault_ata == accounts@[4]
                &&& *a.token_program == accounts@[5]
            },
    {
        match check_withdrawal_accounts(accounts, Self::COUNT) {
            Ok(()) => Ok(
                WithdrawSplVaultAccounts {
                    signer: &accounts[0],
                    vault: &accounts[1],
                    mint: &accounts[2],
                    user_ata: &accounts[3],
                    vault_ata: &accounts[4],
                    token_program: &accounts[5],
                },
            ),
            Err(e) => Err(e),
        }
    }
}

/// A withdrawal of tokens whose accounts have been held to the rules.
pub struct WithdrawSplVault<'info> {
    pub accounts: WithdrawSplVaultAccounts<'info>,
}

impl<'info> WithdrawSplVault<'info> {
    /// The opcode of the instruction.
    pub const DISCRIMINATOR: u8 = 3;

    /// Reads the instruction from its accounts. It has no parameters: the
    /// bytes that follow the opcode are not looked at.
    pub fn try_from(input: (&[u8], &'info [Account])) -> (r: Result<Self, ProgramError>)
        ensures
            r is Ok <==> withdrawal_accounts_rejection(input.1@, 7) is None,
            r matches Err(e) ==> withdrawal_accounts_rejection(input.1@, 7) == Some(e),
            r matches Ok(ix) ==> {
                &&& *ix.accounts.signer == input.1@[0]
                &&& *ix.accounts.vault == input.1@[1]
                &&& *ix.accounts.mint == input.1@[2]
                &&& *ix.accounts.user_ata == input.1@[3]
                &&& *ix.accounts.vault_ata == input.1@[4]
                &&& *ix.accounts.token_program == input.1@[5]
            },
    {
        match WithdrawSplVaultAccounts::try_from(input.1) {
            Ok(accounts) => Ok(WithdrawSplVault { accounts }),
            Err(e) => Err(e),
        }
    }

    /// Why the withdrawal is refused, if it is.
    pub open spec fn rejection(&self, host: HostReads) -> Option<ProgramError> {
        withdrawal_rejection(
            self.accounts.vault.data@,
            self.accounts.signer.key,
            Some(self.accounts.mint.key),
            host,
        )
    }

    /// What the withdrawal does where it is accepted: the whole amount of
    /// the record moves from the token account of the vault to the
    /// depositor's, the token account of the vault is closed in favour of
    /// the depositor, and the holding account is ended. The holding
    /// account authorizes the first two with the seeds of its record.
    pub open spec fn effects(&self) -> Seq<EffectView> {
        let record = stored_record(self.accounts.vault.data@);
        seq![
            EffectView::TransferChecked {
                from: self.accounts.vault_ata.key,
                mint: self.accounts.mint.key,
                to: self.accounts.user_ata.key,
                authority: self.accounts.vault.key,
                amount: record.amount,
                signer_seeds: record_seeds(record),
            },
            EffectView::CloseTokenAccount {
                account: self.accounts.vault_ata.key,
                destination: self.accounts.signer.key,
                authority: self.accounts.vault.key,
                signer_seeds: record_seeds(record),
            },
        ] + closing_effects(
            self.accounts.signer.key,
            self.accounts.vault.key,
            self.accounts.vault.lamports,
        )
    }

    /// Decides the withdrawal. It is accepted if and only if the clock can
    /// be read, the holding account stores a record, the signer is the
    /// depositor of that record, its unlock time is not later than the
    /// current time, and its token type is the one that the instruction
    /// names. Otherwise the first of these that fails is the reason, and
    /// nothing is to be done.
    pub fn process(&self, host: &HostReads) -> (r: Result<Vec<Effect>, ProgramError>)
        ensures
            r is Ok <==> self.rejection(*host) is None,
            r matches Err(e) ==> self.rejection(*host) == Some(e),
            r matches Ok(effects) ==> effects_view(effects@) == self.effects(),
            host.clock is Ok && well_formed(self.accounts.vault.data@) ==> {
                let record = stored_record(self.accounts.vault.data@);
                let now = host.clock->Ok_0;
                &&& record.owner != self.accounts.signer.key@ ==> r == Err::<
                    Vec<Effect>,
                    ProgramError,
                >(vault_error(TimeBaseVaultError::Unauthorized))
                &&& record.owner == self.accounts.signer.key@ && now < record.unlock_timestamp
                    ==> r == Err::<Vec<Effect>, ProgramError>(
                    vault_error(TimeBaseVaultError::VaultLocking),
                )
                &&& record.owner == self.accounts.signer.key@ && now >= record.unlock_timestamp
                    && record.mint == Some(self.accounts.mint.key@) ==> r is Ok
            },
    {
        let current_timestamp = match host.clock {
            Ok(now) => now,
            Err(e) => {
                return Err(e);
            },
        };
        let vault = match Vault::from_bytes(self.accounts.vault.data.as_slice()) {
            Ok(vault) => vault,
            Err(e) => {
                return Err(e);
            },
        };
        let unlock_timestamp = vault.unlock_timestamp();
        if !pubkey_eq(&vault.owner, &self.accounts.signer.key) {
            return Err(ProgramError::from(TimeBaseVaultError::Unauthorized));
        }
        if unlock_timestamp > current_timestamp {
            return Err(ProgramError::from(TimeBaseVaultError::VaultLocking));
        }
        let mint_matches = match &vault.mint {
            Some(mint) => pubkey_eq(mint, &self.accounts.mint.key),
            None => false,
        };
        if !mint_matches {
            return Err(ProgramError::from(TimeBaseVaultError::InvalidVaultMint));
        }
        let amount = vault.amount();
        let mut effects: Vec<Effect> = Vec::new();
        effects.push(
            Effect::TransferChecked {
                from: self.accounts.vault_ata.key,
                mint: self.accounts.mint.key,
                to: self.accounts.user_ata.key,
                authority: self.accounts.vault.key,
                amount,
                signer_seeds: Vault::seeds(
                    &vault.owner,
                    amount,
                    unlock_timestamp,
                    vault.bump[0],
                    vault.mint,
                ),
            },
        );
        effects.push(
            Effect::CloseTokenAccount {
                account: self.accounts.vault_ata.key,
                destination: self.accounts.signer.key,
                authority: self.accounts.vault.key,
                signer_seeds: Vault::seeds(
                    &vault.owner,
                    amount,
                    unlock_timestamp,
                    vault.bump[0],
                    vault.mint,
                ),
            },
        );
        assert(effects@.len() == 2);
        assert(effects@[0]@ == self.effects()[0]);
        assert(effects@[1]@ == self.effects()[1]);
        push_closing_effects(&mut effects, self.accounts.signer, self.accounts.vault);
        assert(effects_view(effects@) =~= self.effects());
        Ok(effects)
    }
}

} // verus!
