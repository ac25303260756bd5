//! The router: which instruction the bytes name, and what becomes of it.

use vstd::prelude::*;
use vstd::slice::slice_subrange;
use crate::account::Account;
use crate::effect::effects_view;
use crate::effect::Effect;
use crate::effect::EffectView;
use crate::errors::vault_error;
use crate::errors::ProgramError;
use crate::errors::TimeBaseVaultError;
use crate::host::HostReads;
use crate::instructions::deposit_accounts_rejection;
use crate::instructions::deposit_amount;
use crate::instructions::deposit_bump;
use crate::instructions::deposit_unlock_timestamp;
use crate::instructions::withdrawal_accounts_rejection;
use crate::instructions::InitializeSolVault;
use crate::instructions::InitializeSolVaultAccounts;
use crate::instructions::InitializeSolVaultInstructionData;
use crate::instructions::InitializeSplVault;
use crate::instructions::InitializeSplVaultAccounts;
use crate::instructions::InitializeSplVaultInstructionData;
use crate::instructions::WithdrawSolVault;
use crate::instructions::WithdrawSolVaultAccounts;
use crate::instructions::WithdrawSplVault;
use crate::instructions::WithdrawSplVaultAccounts;
use crate::pubkey::Pubkey;
use crate::states::vault::stored_record;
use crate::states::vault::well_formed;

verus! {

/// An instruction of the vault that has been read and whose accounts have
/// been held to the rules.
pub enum Instruction<'info> {
    /// A deposit of native balance.
    InitializeSolVault(InitializeSolVault<'info>),
    /// A withdrawal of native balance.
    WithdrawSolVault(WithdrawSolVault<'info>),
    /// A deposit of tokens.
    InitializeSplVault(InitializeSplVault<'info>),
    /// A withdrawal of tokens.
    WithdrawSplVault(WithdrawSplVault<'info>),
}

/// Why the bytes `instruction_data` and the accounts of an instruction
/// are refused before anything is asked of the ledger, if they are. The
/// first byte is the opcode: 0 and 2 deposit, 1 and 3 withdraw, native
/// balance and tokens in turn; there is no other. A deposit wants
/// seventeen bytes of parameters after it. The accounts are looked at
/// before the parameters.
pub open spec fn parse_rejection(accounts: Seq<Account>, instruction_data: Seq<u8>) -> Option<
    ProgramError,
> {
    if instruction_data.len() == 0 {
        Some(ProgramError::InvalidInstructionData)
    } else if instruction_data[0] == 0 || instruction_data[0] == 2 {
        let count: nat = if instruction_data[0] == 0 {
            3
        } else {
            8
        };
        if deposit_accounts_rejection(accounts, count) is Some {
            deposit_accounts_rejection(accounts, count)
        } else if instruction_data.len() != 18 {
            Some(ProgramError::InvalidInstructionData)
        } else {
            None
        }
    } else if instruction_data[0] == 1 {
        withdrawal_accounts_rejection(accounts, 2)
    } else if instruction_data[0] == 3 {
        withdrawal_accounts_rejection(accounts, 7)
    } else {
        Some(ProgramError::InvalidInstructionData)
    }
}

/// The instruction that the bytes `instruction_data` and the accounts
/// make, where they are not refused.
pub open spec fn parsed<'info>(accounts: Seq<Account>, instruction_data: Seq<u8>) -> Instruction<
    'info,
> {
    let data = instruction_data.subrange(1, instruction_data.len() as int);
    if instruction_data[0] == 0 {
        Instruction::InitializeSolVault(
            InitializeSolVault {
                accounts: InitializeSolVaultAccounts { signer: &accounts[0], vault: &accounts[1] },
                instruction_data: InitializeSolVaultInstructionData {
                    amount: deposit_amount(data),
                    unlock_timestamp: deposit_unlock_timestamp(data),
                    bump: deposit_bump(data),
                },
            },
        )
    } else if instruction_data[0] == 1 {
        Instruction::WithdrawSolVault(
            WithdrawSolVault {
                accounts: WithdrawSolVaultAccounts { signer: &accounts[0], vault: &accounts[1] },
            },
        )
    } else if instruction_data[0] == 2 {
        Instruction::InitializeSplVault(
            InitializeSplVault {
                accounts: InitializeSplVaultAccounts {
                    signer: &accounts[0],
                    vault: &accounts[1],
                    mint: &accounts[2],
                    user_ata: &accounts[3],
                    vault_ata: &accounts[4],
                    token_program: &accounts[5],
                    associated_token_program: &accounts[6],
                    system_program: &accounts[7],
                },
                instruction_data: InitializeSplVaultInstructionData {
                    amount: deposit_amount(data),
                    unlock_timestamp: deposit_unlock_timestamp(data),
                    bump: deposit_bump(data),
                },
            },
        )
    } else {
        Instruction::WithdrawSplVault(
            WithdrawSplVault {
                accounts: WithdrawSplVaultAccounts {
                    signer: &accounts[0],
                    vault: &accounts[1],
                    mint: &accounts[2],
                    user_ata: &accounts[3],
                    vault_ata: &accounts[4],
                    token_program: &accounts[5],
                },
            },
        )
    }
}

/// Why the instruction that `instruction_data` names is refused, if it
/// is: for its bytes or its accounts, or else for its own reasons.
pub open spec fn instruction_rejection(
    accounts: Seq<Account>,
    instruction_data: Seq<u8>,
    host: HostReads,
) -> Option<ProgramError> {
    match parse_rejection(accounts, instruction_data) {
        Some(e) => Some(e),
        None => parsed(accounts, instruction_data).rejection(host),
    }
}

impl<'info> Instruction<'info> {
    /// Why the instruction is refused, if it is.
    pub open spec fn rejection(&self, host: HostReads) -> Option<ProgramError> {
        match self {
            Instruction::InitializeSolVault(ix) => ix.rejection(host),
            Instruction::WithdrawSolVault(ix) => ix.rejection(host),
            Instruction::InitializeSplVault(ix) => ix.rejection(host),
            Instruction::WithdrawSplVault(ix) => ix.rejection(host),
        }
    }

    /// What the instruction does where it is accepted.
    pub open spec fn effects(&self, host: HostReads) -> Seq<EffectView> {
        match self {
            Instruction::InitializeSolVault(ix) => ix.effects(host),
            Instruction::WithdrawSolVault(ix) => ix.effects(),
            Instruction::InitializeSplVault(ix) => ix.effects(host),
            Instruction::WithdrawSplVault(ix) => ix.effects(),
        }
    }

    /// The seeds whose derived address the instruction needs to know from
    /// the ledger: those of the holding account, for a deposit.
    pub open spec fn spec_derivation_seeds(&self) -> Option<Seq<Seq<u8>>> {
        match self {
            Instruction::InitializeSolVault(ix) => Some(ix.spec_seeds()),
            Instruction::InitializeSplVault(ix) => Some(ix.spec_seeds()),
            _ => None,
        }
    }

    /// Reads an instruction from its bytes and accounts, and holds the
    /// accounts to the rules.
    pub fn parse(accounts: &'info [Account], instruction_data: &[u8]) -> (r: Result<
        Self,
        ProgramError,
    >)
        ensures
            r is Ok <==> parse_rejection(accounts@, instruction_data@) is None,
            r matches Err(e) ==> parse_rejection(accounts@, instruction_data@) == Some(e),
            r matches Ok(ix) ==> ix == parsed(accounts@, instruction_data@),
    {
        if instruction_data.len() == 0 {
            return Err(ProgramError::InvalidInstructionData);
        }
        let opcode = instruction_data[0];
        let data = slice_subrange(instruction_data, 1, instruction_data.len());
        if opcode == InitializeSolVault::DISCRIMINATOR {
            match InitializeSolVault::try_from((data, accounts)) {
                Ok(ix) => Ok(Instruction::InitializeSolVault(ix)),
                Err(e) => Err(e),
            }
        } else if opcode == WithdrawSolVault::DISCRIMINATOR {
            match WithdrawSolVault::try_from((data, accounts)) {
                Ok(ix) => Ok(Instruction::WithdrawSolVault(ix)),
                Err(e) => Err(e),
            }
        } else if opcode == InitializeSplVault::DISCRIMINATOR {
            match InitializeSplVault::try_from((data, accounts)) {
                Ok(ix) => Ok(Instruction::InitializeSplVault(ix)),
                Err(e) => Err(e),
            }
        } else if opcode == WithdrawSplVault::DISCRIMINATOR {
            match WithdrawSplVault::try_from((data, accounts)) {
                Ok(ix) => Ok(Instruction::WithdrawSplVault(ix)),
                Err(e) => Err(e),
            }
        } else {
            Err(ProgramError::InvalidInstructionData)
        }
    }

    /// The seeds whose derived address the instruction needs to know from
    /// the ledger, if it needs one.
    pub fn derivation_seeds(&self) -> (seeds: Option<Vec<Vec<u8>>>)
        ensures
            seeds is Some <==> self.spec_derivation_seeds() is Some,
            seeds matches Some(s) ==> Some(s.deep_view()) == self.spec_derivation_seeds(),
    {
        match self {
            Instruction::InitializeSolVault(ix) => Some(ix.seeds()),
            Instruction::InitializeSplVault(ix) => Some(ix.seeds()),
            _ => None,
        }
    }

    /// Decides the instruction: the effects it has where it is accepted,
    /// the reason where it is refused.
    pub fn process(&self, host: &HostReads) -> (r: Result<Vec<Effect>, ProgramError>)
        ensures
            r is Ok <==> self.rejection(*host) is None,
            r matches Err(e) ==> self.rejection(*host) == Some(e),
            r matches Ok(effects) ==> effects_view(effects@) == self.effects(*host),
    {
        match self {
            Instruction::InitializeSolVault(ix) => ix.process(host),
            Instruction::WithdrawSolVault(ix) => ix.process(host),
            Instruction::InitializeSplVault(ix) => ix.process(host),
            Instruction::WithdrawSplVault(ix) => ix.process(host),
        }
    }
}

/// Reads the instruction that `instruction_data` names and decides it. An
/// instruction without opcode, or with one that no instruction has, is
/// refused as invalid instruction data. Accounts that break the rules are
/// refused next, then parameters of the wrong length, and the
/// instruction's own checks come last. Nothing has an effect unless the
/// instruction is accepted.
pub fn process_instruction(
    _program_id: &Pubkey,
    accounts: &[Account],
    instruction_data: &[u8],
    host: &HostReads,
) -> (r: Result<Vec<Effect>, ProgramError>)
    ensures
        r is Ok <==> instruction_rejection(accounts@, instruction_data@, *host) is None,
        r matches Err(e) ==> instruction_rejection(accounts@, instruction_data@, *host) == Some(
            e,
        ),
        r matches Ok(effects) ==> effects_view(effects@) == parsed(
            accounts@,
            instruction_data@,
        ).effects(*host),
        instruction_data@.len() == 0 || instruction_data@[0] > 3 ==> r == Err::<
            Vec<Effect>,
            ProgramError,
        >(ProgramError::InvalidInstructionData),
{
    match Instruction::parse(accounts, instruction_data) {
        Ok(ix) => ix.process(host),
        Err(e) => Err(e),
    }
}

/// Whether `instruction_data` names a deposit whose accounts and
/// parameters are not refused.
pub open spec fn reads_as_deposit(accounts: Seq<Account>, instruction_data: Seq<u8>) -> bool {
    &&& parse_rejection(accounts, instruction_data) is None
    &&& instruction_data[0] == 0 || instruction_data[0] == 2
}

/// Whether `instruction_data` names a withdrawal whose accounts are not
/// refused.
pub open spec fn reads_as_withdrawal(accounts: Seq<Account>, instruction_data: Seq<u8>) -> bool {
    &&& parse_rejection(accounts, instruction_data) is None
    &&& instruction_data[0] == 1 || instruction_data[0] == 3
}

/// A deposit of nothing is refused whatever its unlock time, and with a
/// later unlock time than now for that reason; a deposit that unlocks no
/// later than now is refused for that reason whatever its amount.
pub proof fn lemma_deposit_parameters(
    accounts: Seq<Account>,
    instruction_data: Seq<u8>,
    host: HostReads,
)
    requires
        reads_as_deposit(accounts, instruction_data),
    ensures
        ({
            let amount = deposit_amount(instruction_data.subrange(1, 18));
            let unlock_timestamp = deposit_unlock_timestamp(instruction_data.subrange(1, 18));
            let rejection = instruction_rejection(accounts, instruction_data, host);
            &&& amount == 0 ==> rejection is Some
            &&& host.clock is Ok && unlock_timestamp > host.clock->Ok_0 && amount == 0
                ==> rejection == Some(
                vault_error(TimeBaseVaultError::AmountMustBeGreaterThanZero),
            )
            &&& host.clock is Ok && unlock_timestamp <= host.clock->Ok_0 ==> rejection == Some(
                vault_error(TimeBaseVaultError::UnlockTimestampMustBeInFuture),
            )
        }),
{
}

/// A deposit is accepted into one address only, the one that the ledger
/// derives: with any other holding account it is refused, and where the
/// clock can be read and the parameters are in order, refused because
/// the account's data is invalid.
pub proof fn lemma_deposit_address(
    accounts: Seq<Account>,
    instruction_data: Seq<u8>,
    host: HostReads,
)
    requires
        reads_as_deposit(accounts, instruction_data),
        host.program_address matches Ok(derived) ==> derived != accounts[1].key,
    ensures
        ({
            let amount = deposit_amount(instruction_data.subrange(1, 18));
            let unlock_timestamp = deposit_unlock_timestamp(instruction_data.subrange(1, 18));
            let rejection = instruction_rejection(accounts, instruction_data, host);
            &&& rejection is Some
            &&& host.clock is Ok && unlock_timestamp > host.clock->Ok_0 && amount > 0
                && host.program_address is Ok ==> rejection == Some(
                ProgramError::InvalidAccountData,
            )
        }),
{
}

/// A withdrawal by another signer than the depositor of the record is
/// refused as unauthorized, at any time.
pub proof fn lemma_authorization_gate(
    accounts: Seq<Account>,
    instruction_data: Seq<u8>,
    host: HostReads,
)
    requires
        reads_as_withdrawal(accounts, instruction_data),
        host.clock is Ok,
        well_formed(accounts[1].data@),
        stored_record(accounts[1].data@).owner != accounts[0].key@,
    ensures
        instruction_rejection(accounts, instruction_data, host) == Some(
            vault_error(TimeBaseVaultError::Unauthorized),
        ),
{
}

/// A withdrawal by the depositor is refused as locked at every time
/// before the unlock time of the record, and accepted at every other;
/// where it withdraws tokens, the token type that it names is that of the
/// record.
pub proof fn lemma_maturity_gate(
    accounts: Seq<Account>,
    instruction_data: Seq<u8>,
    host: HostReads,
)
    requires
        reads_as_withdrawal(accounts, instruction_data),
        host.clock is Ok,
        well_formed(accounts[1].data@),
        stored_record(accounts[1].data@).owner == accounts[0].key@,
        instruction_data[0] == 3 ==> stored_record(accounts[1].data@).mint == Some(
            accounts[2].key@,
        ),
    ensures
        host.clock->Ok_0 < stored_record(accounts[1].data@).unlock_timestamp
            ==> instruction_rejection(accounts, instruction_data, host) == Some(
            vault_error(TimeBaseVaultError::VaultLocking),
        ),
        host.clock->Ok_0 >= stored_record(accounts[1].data@).unlock_timestamp
            ==> instruction_rejection(accounts, instruction_data, host) is None,
{
}

} // verus!
