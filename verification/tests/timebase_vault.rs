//! Whole instructions against a ledger in miniature, which carries out
//! what the vault decides as the real one would.

use solana_pubkey::Pubkey as Address;
use solana_pubkey::PubkeyError;
use timebase_vault::account::Account;
use timebase_vault::effect::Effect;
use timebase_vault::errors::ProgramError;
use timebase_vault::host::HostReads;
use timebase_vault::instructions::InitializeSolVault;
use timebase_vault::instructions::InitializeSolVaultInstructionData;
use timebase_vault::instructions::InitializeSplVault;
use timebase_vault::instructions::InitializeSplVaultInstructionData;
use timebase_vault::instructions::WithdrawSolVault;
use timebase_vault::instructions::WithdrawSplVault;
use timebase_vault::processor::process_instruction;
use timebase_vault::processor::Instruction;
use timebase_vault::pubkey::Pubkey;
use timebase_vault::pubkey::SYSTEM_PROGRAM_ID;
use timebase_vault::states::Vault;
use timebase_vault::ID;

const LAMPORTS_PER_SOL: u64 = 1_000_000_000;

const TOKEN_PROGRAM: Pubkey = pinocchio_token::ID;

const ASSOCIATED_TOKEN_PROGRAM: Pubkey = pinocchio_associated_token_account::ID;

const TOKEN_ACCOUNT_LEN: usize = 165;

/// The balance that exempts an account of `len` bytes from rent.
fn minimum_balance(len: usize) -> u64 {
    (128 + len as u64) * 6960
}

/// A token account: whose it is, of which token type, and how much.
#[derive(Clone, Debug, PartialEq)]
struct TokenAccount {
    key: Pubkey,
    mint: Pubkey,
    owner: Pubkey,
    amount: u64,
}

/// A ledger in miniature.
#[derive(Clone, Debug)]
struct Ledger {
    unix_timestamp: i64,
    accounts: Vec<Account>,
    token_accounts: Vec<TokenAccount>,
    mints: Vec<(Pubkey, u8)>,
}

/// One account of an instruction: its address, and whether it has signed
/// and may be changed.
#[derive(Clone, Copy)]
struct AccountMeta {
    key: Pubkey,
    is_signer: bool,
    is_writable: bool,
}

fn writable(key: Pubkey, is_signer: bool) -> AccountMeta {
    AccountMeta { key, is_signer, is_writable: true }
}

fn readonly(key: Pubkey, is_signer: bool) -> AccountMeta {
    AccountMeta { key, is_signer, is_writable: false }
}

fn program_error(e: PubkeyError) -> ProgramError {
    match e {
        PubkeyError::MaxSeedLengthExceeded => ProgramError::MaxSeedLengthExceeded,
        PubkeyError::InvalidSeeds => ProgramError::InvalidSeeds,
        PubkeyError::IllegalOwner => ProgramError::IllegalOwner,
    }
}

/// The address that the seeds derive under the vault program.
fn create_program_address(seeds: &[Vec<u8>]) -> Result<Pubkey, ProgramError> {
    let seeds: Vec<&[u8]> = seeds.iter().map(|seed| seed.as_slice()).collect();
    match Address::create_program_address(&seeds, &Address::new_from_array(ID)) {
        Ok(address) => Ok(address.to_bytes()),
        Err(e) => Err(program_error(e)),
    }
}

/// The address that the seeds and the bump found for them derive under
/// the vault program, and that bump.
fn find_program_address(seeds: &[&[u8]]) -> (Pubkey, u8) {
    let (address, bump) = Address::find_program_address(seeds, &Address::new_from_array(ID));
    (address.to_bytes(), bump)
}

/// The address of the token account of `wallet` for the token type `mint`.
fn get_associated_token_address(wallet: &Pubkey, mint: &Pubkey) -> Pubkey {
    let (address, _) = Address::find_program_address(
        &[wallet, &TOKEN_PROGRAM, mint],
        &Address::new_from_array(ASSOCIATED_TOKEN_PROGRAM),
    );
    address.to_bytes()
}

impl Ledger {
    fn new(unix_timestamp: i64) -> Ledger {
        Ledger { unix_timestamp, accounts: Vec::new(), token_accounts: Vec::new(), mints: Vec::new() }
    }

    /// What the ledger holds at `key`; an address never used holds
    /// nothing and belongs to the system program.
    fn account(&self, key: &Pubkey) -> Account {
        match self.accounts.iter().find(|a| a.key == *key) {
            Some(account) => account.clone(),
            None => Account {
                key: *key,
                owner: SYSTEM_PROGRAM_ID,
                lamports: 0,
                data: Vec::new(),
                is_signer: false,
                is_writable: false,
            },
        }
    }

    fn account_mut(&mut self, key: &Pubkey) -> &mut Account {
        if !self.accounts.iter().any(|a| a.key == *key) {
            let fresh = self.account(key);
            self.accounts.push(fresh);
        }
        self.accounts.iter_mut().find(|a| a.key == *key).unwrap()
    }

    fn add_account(&mut self, key: Pubkey, lamports: u64, data: Vec<u8>, owner: Pubkey) {
        let account = self.account_mut(&key);
        account.lamports = lamports;
        account.data = data;
        account.owner = owner;
    }

    fn add_mint(&mut self, key: Pubkey, decimals: u8) {
        self.add_account(key, minimum_balance(82), vec![0; 82], TOKEN_PROGRAM);
        self.mints.push((key, decimals));
    }

    fn add_token_account(&mut self, key: Pubkey, mint: Pubkey, owner: Pubkey, amount: u64) {
        self.add_account(
            key,
            minimum_balance(TOKEN_ACCOUNT_LEN),
            vec![0; TOKEN_ACCOUNT_LEN],
            TOKEN_PROGRAM,
        );
        self.token_accounts.push(TokenAccount { key, mint, owner, amount });
    }

    fn token_account(&self, key: &Pubkey) -> Option<&TokenAccount> {
        self.token_accounts.iter().find(|t| t.key == *key)
    }

    fn is_closed(&self, key: &Pubkey) -> bool {
        let account = self.account(key);
        account.lamports == 0 && account.data.is_empty() && account.owner == SYSTEM_PROGRAM_ID
    }

    fn decimals(&self, mint: &Pubkey) -> Result<u8, ProgramError> {
        match self.mints.iter().find(|(key, _)| key == mint) {
            Some((_, decimals)) => Ok(*decimals),
            None => Err(ProgramError::InvalidAccountOwner),
        }
    }

    /// Whether `authority` may act: it has signed the transaction, or the
    /// seeds derive it under the vault program.
    fn authorized(authority: &Pubkey, signers: &[Pubkey], seeds: &[Vec<u8>]) -> bool {
        signers.contains(authority)
            || (!seeds.is_empty() && create_program_address(seeds) == Ok(*authority))
    }

    fn debit(&mut self, key: &Pubkey, lamports: u64) -> Result<(), ProgramError> {
        let account = self.account_mut(key);
        match account.lamports.checked_sub(lamports) {
            Some(rest) => {
                account.lamports = rest;
                Ok(())
            }
            None => Err(ProgramError::InsufficientFunds),
        }
    }

    fn credit(&mut self, key: &Pubkey, lamports: u64) -> Result<(), ProgramError> {
        let account = self.account_mut(key);
        match account.lamports.checked_add(lamports) {
            Some(sum) => {
                account.lamports = sum;
                Ok(())
            }
            None => Err(ProgramError::ArithmeticOverflow),
        }
    }

    /// Carries out one effect, or says why not.
    fn apply(&mut self, effect: &Effect, signers: &[Pubkey]) -> Result<(), ProgramError> {
        match effect {
            Effect::CreateAccount { from, to, lamports, space, owner, signer_seeds } => {
                if !signers.contains(from) || !Ledger::authorized(to, signers, signer_seeds) {
                    return Err(ProgramError::MissingRequiredSignature);
                }
                let target = self.account(to);
                if target.lamports != 0 || !target.data.is_empty() || target.owner != SYSTEM_PROGRAM_ID {
                    return Err(ProgramError::AccountAlreadyInitialized);
                }
                self.debit(from, *lamports)?;
                self.credit(to, *lamports)?;
                let account = self.account_mut(to);
                account.data = vec![0; *space as usize];
                account.owner = *owner;
                Ok(())
            }
            Effect::WriteData { account, data } => {
                let account = self.account_mut(account);
                if account.owner != ID || account.data.len() != data.len() {
                    return Err(ProgramError::InvalidAccountData);
                }
                account.data = data.clone();
                Ok(())
            }
            Effect::Transfer { from, to, lamports } => {
                if !signers.contains(from) {
                    return Err(ProgramError::MissingRequiredSignature);
                }
                self.debit(from, *lamports)?;
                self.credit(to, *lamports)
            }
            Effect::CreateAssociatedTokenAccount {
                funding_account,
                account,
                wallet,
                mint,
                system_program,
                token_program,
            } => {
                if *system_program != SYSTEM_PROGRAM_ID || *token_program != TOKEN_PROGRAM {
                    return Err(ProgramError::IncorrectProgramId);
                }
                if *account != get_associated_token_address(wallet, mint) {
                    return Err(ProgramError::InvalidSeeds);
                }
                if !signers.contains(funding_account) {
                    return Err(ProgramError::MissingRequiredSignature);
                }
                self.decimals(mint)?;
                self.debit(funding_account, minimum_balance(TOKEN_ACCOUNT_LEN))?;
                self.add_token_account(*account, *mint, *wallet, 0);
                Ok(())
            }
            Effect::TransferChecked { from, mint, to, authority, amount, signer_seeds } => {
                self.decimals(mint)?;
                let source = self.token_account(from).cloned();
                let target = self.token_account(to).cloned();
                let (source, target) = match (source, target) {
                    (Some(source), Some(target)) => (source, target),
                    _ => return Err(ProgramError::UninitializedAccount),
                };
                if source.mint != *mint || target.mint != *mint {
                    return Err(ProgramError::InvalidAccountData);
                }
                if source.owner != *authority
                    || !Ledger::authorized(authority, signers, signer_seeds)
                {
                    return Err(ProgramError::MissingRequiredSignature);
                }
                if source.amount < *amount {
                    return Err(ProgramError::InsufficientFunds);
                }
                for token_account in self.token_accounts.iter_mut() {
                    if token_account.key == *from {
                        token_account.amount -= *amount;
                    }
                }
                for token_account in self.token_accounts.iter_mut() {
                    if token_account.key == *to {
                        token_account.amount += *amount;
                    }
                }
                Ok(())
            }
            Effect::CloseTokenAccount { account, destination, authority, signer_seeds } => {
                let closing = match self.token_account(account) {
                    Some(closing) => closing.clone(),
                    None => return Err(ProgramError::UninitializedAccount),
                };
                if closing.owner != *authority
                    || !Ledger::authorized(authority, signers, signer_seeds)
                {
                    return Err(ProgramError::MissingRequiredSignature);
                }
                if closing.amount != 0 {
                    return Err(ProgramError::InvalidAccountData);
                }
                let lamports = self.account(account).lamports;
                self.credit(destination, lamports)?;
                self.token_accounts.retain(|t| t.key != *account);
                let account = self.account_mut(account);
                account.lamports = 0;
                account.data = Vec::new();
                account.owner = SYSTEM_PROGRAM_ID;
                Ok(())
            }
            Effect::WriteByte { account, index, value } => {
                let account = self.account_mut(account);
                if account.owner != ID || *index >= account.data.len() {
                    return Err(ProgramError::InvalidAccountData);
                }
                account.data[*index] = *value;
                Ok(())
            }
            Effect::Resize { account, len } => {
                let account = self.account_mut(account);
                if account.owner != ID {
                    return Err(ProgramError::InvalidRealloc);
                }
                account.data.resize(*len, 0);
                Ok(())
            }
            Effect::Credit { account, lamports } => self.credit(account, *lamports),
            Effect::Close { account } => {
                let account = self.account_mut(account);
                if account.owner != ID {
                    return Err(ProgramError::IllegalOwner);
                }
                account.lamports = 0;
                account.data = Vec::new();
                account.owner = SYSTEM_PROGRAM_ID;
                Ok(())
            }
        }
    }

    /// Hands an instruction to the vault and carries out what it decides.
    /// Where the vault or the ledger refuses, the ledger stays as it was.
    fn process(&mut self, metas: &[AccountMeta], data: &[u8]) -> Result<(), ProgramError> {
        let accounts: Vec<Account> = metas
            .iter()
            .map(|meta| Account {
                is_signer: meta.is_signer,
                is_writable: meta.is_writable,
                ..self.account(&meta.key)
            })
            .collect();
        let signers: Vec<Pubkey> =
            metas.iter().filter(|meta| meta.is_signer).map(|meta| meta.key).collect();
        let mut host = HostReads {
            clock: Ok(self.unix_timestamp),
            program_address: Err(ProgramError::InvalidSeeds),
            rent_minimum: Ok(minimum_balance(Vault::LEN)),
        };
        if let Ok(instruction) = Instruction::parse(&accounts, data) {
            if let Some(seeds) = instruction.derivation_seeds() {
                host.program_address = create_program_address(&seeds);
            }
        }
        let effects = process_instruction(&ID, &accounts, data, &host)?;
        let mut after = self.clone();
        for effect in effects.iter() {
            after.apply(effect, &signers)?;
        }
        let before: u128 = self.accounts.iter().map(|a| a.lamports as u128).sum();
        let total: u128 = after.accounts.iter().map(|a| a.lamports as u128).sum();
        assert_eq!(before, total);
        *self = after;
        Ok(())
    }
}

/// The bytes of the parameters of a deposit.
fn to_bytes(amount: u64, unlock_timestamp: i64, bump: u8) -> Vec<u8> {
    let mut bytes = Vec::new();
    bytes.extend_from_slice(&amount.to_le_bytes());
    bytes.extend_from_slice(&unlock_timestamp.to_le_bytes());
    bytes.push(bump);
    bytes
}

fn get_ledger() -> (Ledger, Pubkey) {
    let mut ledger = Ledger::new(1757633343);
    let mint: Pubkey = [0x05; 32];
    ledger.add_mint(mint, 6);
    (ledger, mint)
}

#[test]
fn init_sol_vault() {
    let (mut ledger, _) = get_ledger();

    let system_program = SYSTEM_PROGRAM_ID;

    let maker: Pubkey = [0x02; 32];
    ledger.add_account(maker, 10 * LAMPORTS_PER_SOL, Vec::new(), system_program);

    let amount = 1 * LAMPORTS_PER_SOL;
    let unlock_timestamp = ledger.unix_timestamp + 3600;

    println!("unlock_timestamp: {}", unlock_timestamp);

    let (vault_address, bump) = find_program_address(&[
        &Vault::SEED,
        maker.as_ref(),
        &amount.to_le_bytes(),
        &unlock_timestamp.to_le_bytes(),
    ]);

    ledger.add_account(vault_address, 0, Vec::new(), system_program);

    let ix_data = InitializeSolVaultInstructionData { amount, unlock_timestamp, bump };

    let lamport_for_rent = minimum_balance(Vault::LEN);

    let mut data = vec![InitializeSolVault::DISCRIMINATOR.clone()];
    data.extend_from_slice(&to_bytes(ix_data.amount, ix_data.unlock_timestamp, ix_data.bump));

    let result = ledger.process(
        &[writable(maker, true), writable(vault_address, false), readonly(system_program, false)],
        &data,
    );

    assert_eq!(result, Ok(()));
    assert_eq!(ledger.account(&vault_address).owner, ID);
    assert_eq!(ledger.account(&vault_address).lamports, amount + lamport_for_rent);
    assert_eq!(
        ledger.account(&maker).lamports,
        10 * LAMPORTS_PER_SOL - amount - lamport_for_rent
    );
    assert_eq!(
        Vault::from_bytes(&ledger.account(&vault_address).data),
        Ok(Vault {
            owner: maker,
            amount: amount.to_le_bytes(),
            bump: [bump],
            unlock_timestamp: unlock_timestamp.to_le_bytes(),
            mint: None,
        })
    );
}

#[test]
fn withdraw_sol_vault_successfully() {
    let (mut ledger, _) = get_ledger();

    let system_program = SYSTEM_PROGRAM_ID;

    let maker: Pubkey = [0x02; 32];
    ledger.add_account(maker, 10 * LAMPORTS_PER_SOL, Vec::new(), system_program);

    let amount = 2 * LAMPORTS_PER_SOL;
    let unlock_timestamp = ledger.unix_timestamp + 3600;

    println!("unlock_timestamp: {}", unlock_timestamp);

    let (vault_address, bump) = find_program_address(&[
        &Vault::SEED,
        maker.as_ref(),
        &amount.to_le_bytes(),
        &unlock_timestamp.to_le_bytes(),
    ]);

    let lamport_for_rent = minimum_balance(Vault::LEN);

    let vault_account_data = Vault {
        owner: maker,
        amount: amount.to_le_bytes(),
        unlock_timestamp: unlock_timestamp.to_le_bytes(),
        mint: None,
        bump: [bump],
    };

    ledger.add_account(vault_address, lamport_for_rent + amount, vault_account_data.to_bytes(), ID);
    assert_eq!(ledger.account(&vault_address).data.len(), Vault::LEN);

    let data = vec![WithdrawSolVault::DISCRIMINATOR.clone()];

    ledger.unix_timestamp = unlock_timestamp + 100;

    let result = ledger.process(&[writable(maker, true), writable(vault_address, false)], &data);

    assert_eq!(result, Ok(()));
    assert!(ledger.is_closed(&vault_address));
    assert_eq!(
        ledger.account(&maker).lamports,
        10 * LAMPORTS_PER_SOL + amount + lamport_for_rent
    );
}

#[test]
fn withdraw_sol_vault_fail_with_vault_locking() {
    let (mut ledger, _) = get_ledger();

    let system_program = SYSTEM_PROGRAM_ID;

    let maker: Pubkey = [0x02; 32];
    ledger.add_account(maker, 10 * LAMPORTS_PER_SOL, Vec::new(), system_program);

    let amount = 2 * LAMPORTS_PER_SOL;
    let unlock_timestamp = ledger.unix_timestamp + 3600;

    println!("unlock_timestamp: {}", unlock_timestamp);

    let (vault_address, bump) = find_program_address(&[
        &Vault::SEED,
        maker.as_ref(),
        &amount.to_le_bytes(),
        &unlock_timestamp.to_le_bytes(),
    ]);

    let lamport_for_rent = minimum_balance(Vault::LEN);

    let vault_account_data = Vault {
        owner: maker,
        amount: amount.to_le_bytes(),
        unlock_timestamp: unlock_timestamp.to_le_bytes(),
        mint: None,
        bump: [bump],
    };

    ledger.add_account(vault_address, lamport_for_rent + amount, vault_account_data.to_bytes(), ID);

    let data = vec![WithdrawSolVault::DISCRIMINATOR.clone()];

    let result = ledger.process(&[writable(maker, true), writable(vault_address, false)], &data);

    assert_eq!(result, Err(ProgramError::Custom(3))); // VaultLocking
    assert_eq!(ledger.account(&vault_address).owner, ID);
    assert_eq!(ledger.account(&vault_address).lamports, amount + lamport_for_rent);
}

#[test]
fn withdraw_sol_vault_fail_with_unauthorized_user() {
    let (mut ledger, _) = get_ledger();

    let system_program = SYSTEM_PROGRAM_ID;

    let maker: Pubkey = [0x02; 32];

    let attacker: Pubkey = [0x03; 32];
    ledger.add_account(attacker, 10 * LAMPORTS_PER_SOL, Vec::new(), system_program);

    let amount = 2 * LAMPORTS_PER_SOL;
    let unlock_timestamp = ledger.unix_timestamp + 3600;

    println!("unlock_timestamp: {}", unlock_timestamp);

    let (vault_address, bump) = find_program_address(&[
        &Vault::SEED,
        maker.as_ref(),
        &amount.to_le_bytes(),
        &unlock_timestamp.to_le_bytes(),
    ]);

    let lamport_for_rent = minimum_balance(Vault::LEN);

    let vault_account_data = Vault {
        owner: maker,
        amount: amount.to_le_bytes(),
        unlock_timestamp: unlock_timestamp.to_le_bytes(),
        mint: None,
        bump: [bump],
    };

    ledger.add_account(vault_address, lamport_for_rent + amount, vault_account_data.to_bytes(), ID);

    let data = vec![WithdrawSolVault::DISCRIMINATOR.clone()];

    let result = ledger.process(&[writable(attacker, true), writable(vault_address, false)], &data);

    assert_eq!(result, Err(ProgramError::Custom(2))); // Unauthorized
    assert_eq!(ledger.account(&vault_address).owner, ID);
    assert_eq!(ledger.account(&vault_address).lamports, amount + lamport_for_rent);
}

#[test]
fn init_spl_vault() {
    let (mut ledger, mint) = get_ledger();

    let system_program = SYSTEM_PROGRAM_ID;
    let token_program = TOKEN_PROGRAM;
    let associated_token_program = ASSOCIATED_TOKEN_PROGRAM;

    let maker: Pubkey = [0x02; 32];
    ledger.add_account(maker, 10 * LAMPORTS_PER_SOL, Vec::new(), system_program);

    let user_ata = get_associated_token_address(&maker, &mint);
    ledger.add_token_account(user_ata, mint, maker, 10_000_000_000);

    let amount = 1_000_000u64;
    let unlock_timestamp = ledger.unix_timestamp + 3600;

    let (vault_address, bump) = find_program_address(&[
        &Vault::SEED,
        maker.as_ref(),
        mint.as_ref(),
        &amount.to_le_bytes(),
        &unlock_timestamp.to_le_bytes(),
    ]);

    ledger.add_account(vault_address, 0, Vec::new(), system_program);

    let vault_ata = get_associated_token_address(&vault_address, &mint);
    ledger.add_account(vault_ata, 0, Vec::new(), system_program);

    let ix_data = InitializeSplVaultInstructionData { amount, unlock_timestamp, bump };

    let mut data = vec![InitializeSplVault::DISCRIMINATOR.clone()];
    data.extend_from_slice(&to_bytes(ix_data.amount, ix_data.unlock_timestamp, ix_data.bump));

    let result = ledger.process(
        &[
            writable(maker, true),
            writable(vault_address, false),
            writable(mint, false),
            writable(user_ata, false),
            writable(vault_ata, false),
            readonly(token_program, false),
            readonly(associated_token_program, false),
            readonly(system_program, false),
        ],
        &data,
    );

    assert_eq!(result, Ok(()));
    assert_eq!(ledger.account(&vault_address).owner, ID);
    assert_eq!(ledger.token_account(&vault_ata).map(|t| t.amount), Some(1_000_000));
    assert_eq!(ledger.token_account(&vault_ata).map(|t| t.owner), Some(vault_address));
    assert_eq!(ledger.token_account(&user_ata).map(|t| t.amount), Some(10_000_000_000 - 1_000_000));
    assert_eq!(
        Vault::from_bytes(&ledger.account(&vault_address).data),
        Ok(Vault {
            owner: maker,
            amount: amount.to_le_bytes(),
            bump: [bump],
            unlock_timestamp: unlock_timestamp.to_le_bytes(),
            mint: Some(mint),
        })
    );
}

#[test]
fn withdraw_spl_vault_successfully() {
    let (mut ledger, mint) = get_ledger();

    let system_program = SYSTEM_PROGRAM_ID;
    let token_program = TOKEN_PROGRAM;

    let maker: Pubkey = [0x02; 32];
    ledger.add_account(maker, 10 * LAMPORTS_PER_SOL, Vec::new(), system_program);

    let user_ata = get_associated_token_address(&maker, &mint);
    ledger.add_token_account(user_ata, mint, maker, 0);

    let amount = 1_000_000u64;
    let unlock_timestamp = ledger.unix_timestamp + 3600;

    let (vault_address, bump) = find_program_address(&[
        &Vault::SEED,
        maker.as_ref(),
        mint.as_ref(),
        &amount.to_le_bytes(),
        &unlock_timestamp.to_le_bytes(),
    ]);

    let lamport_for_rent = minimum_balance(Vault::LEN);

    let vault_account_data = Vault {
        owner: maker,
        amount: amount.to_le_bytes(),
        unlock_timestamp: unlock_timestamp.to_le_bytes(),
        mint: Some(mint),
        bump: [bump],
    };

    ledger.add_account(vault_address, lamport_for_rent, vault_account_data.to_bytes(), ID);

    let vault_ata = get_associated_token_address(&vault_address, &mint);
    ledger.add_token_account(vault_ata, mint, vault_address, amount);

    let data = vec![WithdrawSplVault::DISCRIMINATOR.clone()];

    ledger.unix_timestamp = unlock_timestamp + 100;

    let result = ledger.process(
        &[
            writable(maker, true),
            writable(vault_address, false),
            writable(mint, false),
            writable(user_ata, false),
            writable(vault_ata, false),
            readonly(token_program, false),
            readonly(system_program, false),
        ],
        &data,
    );

    assert_eq!(result, Ok(()));
    assert_eq!(ledger.token_account(&user_ata).map(|t| t.amount), Some(1_000_000));
    assert_eq!(ledger.token_account(&vault_ata), None);
    assert!(ledger.is_closed(&vault_ata));
    assert!(ledger.is_closed(&vault_address));
    assert_eq!(
        ledger.account(&maker).lamports,
        10 * LAMPORTS_PER_SOL + lamport_for_rent + minimum_balance(TOKEN_ACCOUNT_LEN)
    );
}

/// A ledger with a depositor of ten units, and the address and bump of the
/// vault for a deposit of `amount` that unlocks an hour from now.
fn native_setup(amount: u64) -> (Ledger, Pubkey, Pubkey, u8, i64) {
    let (mut ledger, _) = get_ledger();
    let maker: Pubkey = [0x02; 32];
    ledger.add_account(maker, 10 * LAMPORTS_PER_SOL, Vec::new(), SYSTEM_PROGRAM_ID);
    let unlock_timestamp = ledger.unix_timestamp + 3600;
    let (vault_address, bump) = find_program_address(&[
        &Vault::SEED,
        maker.as_ref(),
        &amount.to_le_bytes(),
        &unlock_timestamp.to_le_bytes(),
    ]);
    (ledger, maker, vault_address, bump, unlock_timestamp)
}

fn native_deposit(
    ledger: &mut Ledger,
    maker: Pubkey,
    vault_address: Pubkey,
    amount: u64,
    unlock_timestamp: i64,
    bump: u8,
) -> Result<(), ProgramError> {
    let mut data = vec![InitializeSolVault::DISCRIMINATOR];
    data.extend_from_slice(&to_bytes(amount, unlock_timestamp, bump));
    ledger.process(
        &[
            writable(maker, true),
            writable(vault_address, false),
            readonly(SYSTEM_PROGRAM_ID, false),
        ],
        &data,
    )
}

fn native_withdrawal(
    ledger: &mut Ledger,
    signer: Pubkey,
    vault_address: Pubkey,
) -> Result<(), ProgramError> {
    ledger.process(
        &[writable(signer, true), writable(vault_address, false)],
        &[WithdrawSolVault::DISCRIMINATOR],
    )
}

#[test]
fn native_deposit_is_locked_then_withdrawn() {
    let amount = 1;
    let (mut ledger, maker, vault_address, bump, unlock_timestamp) = native_setup(amount);
    let rent = minimum_balance(Vault::LEN);

    assert_eq!(native_deposit(&mut ledger, maker, vault_address, amount, unlock_timestamp, bump), Ok(()));
    assert_eq!(ledger.account(&vault_address).lamports, rent + 1);
    assert_eq!(ledger.account(&maker).lamports, 10 * LAMPORTS_PER_SOL - rent - 1);

    assert_eq!(
        native_withdrawal(&mut ledger, maker, vault_address),
        Err(ProgramError::Custom(3))
    );
    assert_eq!(ledger.account(&vault_address).lamports, rent + 1);

    ledger.unix_timestamp = unlock_timestamp - 1;
    assert_eq!(
        native_withdrawal(&mut ledger, maker, vault_address),
        Err(ProgramError::Custom(3))
    );

    ledger.unix_timestamp = unlock_timestamp;
    assert_eq!(native_withdrawal(&mut ledger, maker, vault_address), Ok(()));
    assert!(ledger.is_closed(&vault_address));
    assert_eq!(ledger.account(&maker).lamports, 10 * LAMPORTS_PER_SOL);
}

#[test]
fn token_deposit_is_locked_then_withdrawn() {
    let (mut ledger, mint) = get_ledger();
    let maker: Pubkey = [0x02; 32];
    ledger.add_account(maker, 10 * LAMPORTS_PER_SOL, Vec::new(), SYSTEM_PROGRAM_ID);
    let user_ata = get_associated_token_address(&maker, &mint);
    ledger.add_token_account(user_ata, mint, maker, 10_000_000_000);

    let amount = 1_000_000u64;
    let unlock_timestamp = ledger.unix_timestamp + 3600;
    let (vault_address, bump) = find_program_address(&[
        &Vault::SEED,
        maker.as_ref(),
        mint.as_ref(),
        &amount.to_le_bytes(),
        &unlock_timestamp.to_le_bytes(),
    ]);
    let vault_ata = get_associated_token_address(&vault_address, &mint);

    let mut data = vec![InitializeSplVault::DISCRIMINATOR];
    data.extend_from_slice(&to_bytes(amount, unlock_timestamp, bump));
    let deposit = [
        writable(maker, true),
        writable(vault_address, false),
        writable(mint, false),
        writable(user_ata, false),
        writable(vault_ata, false),
        readonly(TOKEN_PROGRAM, false),
        readonly(ASSOCIATED_TOKEN_PROGRAM, false),
        readonly(SYSTEM_PROGRAM_ID, false),
    ];
    assert_eq!(ledger.process(&deposit, &data), Ok(()));
    assert_eq!(ledger.token_account(&vault_ata).map(|t| t.amount), Some(1_000_000));
    assert_eq!(ledger.token_account(&user_ata).map(|t| t.amount), Some(9_999_000_000));
    assert_eq!(
        ledger.account(&maker).lamports,
        10 * LAMPORTS_PER_SOL - minimum_balance(Vault::LEN) - minimum_balance(TOKEN_ACCOUNT_LEN)
    );

    let withdrawal = [
        writable(maker, true),
        writable(vault_address, false),
        writable(mint, false),
        writable(user_ata, false),
        writable(vault_ata, false),
        readonly(TOKEN_PROGRAM, false),
        readonly(SYSTEM_PROGRAM_ID, false),
    ];
    let data = [WithdrawSplVault::DISCRIMINATOR];
    assert_eq!(ledger.process(&withdrawal, &data), Err(ProgramError::Custom(3)));
    assert_eq!(ledger.token_account(&vault_ata).map(|t| t.amount), Some(1_000_000));

    ledger.unix_timestamp = unlock_timestamp + 1;
    assert_eq!(ledger.process(&withdrawal, &data), Ok(()));
    assert_eq!(ledger.token_account(&user_ata).map(|t| t.amount), Some(10_000_000_000));
    assert!(ledger.is_closed(&vault_ata));
    assert!(ledger.is_closed(&vault_address));
    assert_eq!(ledger.account(&maker).lamports, 10 * LAMPORTS_PER_SOL);
}

#[test]
fn attacker_cannot_withdraw_a_matured_vault() {
    let amount = 2 * LAMPORTS_PER_SOL;
    let (mut ledger, maker, vault_address, bump, unlock_timestamp) = native_setup(amount);
    let attacker: Pubkey = [0x03; 32];
    ledger.add_account(attacker, 10 * LAMPORTS_PER_SOL, Vec::new(), SYSTEM_PROGRAM_ID);
    assert_eq!(native_deposit(&mut ledger, maker, vault_address, amount, unlock_timestamp, bump), Ok(()));
    let before = ledger.clone();

    ledger.unix_timestamp = unlock_timestamp + 100;
    assert_eq!(
        native_withdrawal(&mut ledger, attacker, vault_address),
        Err(ProgramError::Custom(2))
    );
    assert_eq!(ledger.accounts, before.accounts);
    assert_eq!(native_withdrawal(&mut ledger, maker, vault_address), Ok(()));
}

#[test]
fn vault_is_withdrawn_once() {
    let amount = LAMPORTS_PER_SOL;
    let (mut ledger, maker, vault_address, bump, unlock_timestamp) = native_setup(amount);
    assert_eq!(native_deposit(&mut ledger, maker, vault_address, amount, unlock_timestamp, bump), Ok(()));

    assert_eq!(
        native_deposit(&mut ledger, maker, vault_address, amount, unlock_timestamp, bump),
        Err(ProgramError::AccountAlreadyInitialized)
    );

    ledger.unix_timestamp = unlock_timestamp;
    assert_eq!(native_withdrawal(&mut ledger, maker, vault_address), Ok(()));
    assert_eq!(
        native_withdrawal(&mut ledger, maker, vault_address),
        Err(ProgramError::InvalidAccountData)
    );
    assert_eq!(ledger.account(&maker).lamports, 10 * LAMPORTS_PER_SOL);

    assert_eq!(
        native_deposit(&mut ledger, maker, vault_address, amount, unlock_timestamp, bump),
        Err(ProgramError::Custom(0))
    );
    ledger.unix_timestamp = unlock_timestamp - 3600;
    assert_eq!(native_deposit(&mut ledger, maker, vault_address, amount, unlock_timestamp, bump), Ok(()));
    assert_eq!(
        ledger.account(&vault_address).lamports,
        amount + minimum_balance(Vault::LEN)
    );
}

#[test]
fn one_bump_and_one_address_fit_a_deposit() {
    let amount = LAMPORTS_PER_SOL;
    let (ledger, maker, vault_address, bump, unlock_timestamp) = native_setup(amount);

    let mut accepted = Vec::new();
    for candidate in 0..=255u8 {
        let mut trial = ledger.clone();
        let result =
            native_deposit(&mut trial, maker, vault_address, amount, unlock_timestamp, candidate);
        match result {
            Ok(()) => accepted.push(candidate),
            Err(e) => assert!(
                e == ProgramError::InvalidAccountData || e == ProgramError::InvalidSeeds
            ),
        }
    }
    assert_eq!(accepted, vec![bump]);

    for i in 0..32 {
        let mut other = vault_address;
        other[i] ^= 1;
        let mut trial = ledger.clone();
        assert_eq!(
            native_deposit(&mut trial, maker, other, amount, unlock_timestamp, bump),
            Err(ProgramError::InvalidAccountData)
        );
    }

    let mut trial = ledger.clone();
    assert_eq!(
        native_deposit(&mut trial, maker, vault_address, amount + 1, unlock_timestamp, bump),
        Err(ProgramError::InvalidAccountData)
    );
    let mut trial = ledger.clone();
    assert_eq!(
        native_deposit(&mut trial, maker, vault_address, amount, unlock_timestamp + 1, bump),
        Err(ProgramError::InvalidAccountData)
    );
}

#[test]
fn deposit_of_nothing_creates_no_account() {
    let (mut ledger, maker, vault_address, bump, unlock_timestamp) = native_setup(0);
    let before = ledger.clone();
    assert_eq!(
        native_deposit(&mut ledger, maker, vault_address, 0, unlock_timestamp, bump),
        Err(ProgramError::Custom(1))
    );
    assert_eq!(ledger.accounts, before.accounts);
    assert!(ledger.is_closed(&vault_address));
}

#[test]
fn deposit_beyond_the_balance_leaves_the_ledger_unchanged() {
    let amount = 20 * LAMPORTS_PER_SOL;
    let (mut ledger, maker, vault_address, bump, unlock_timestamp) = native_setup(amount);
    let before = ledger.clone();
    assert_eq!(
        native_deposit(&mut ledger, maker, vault_address, amount, unlock_timestamp, bump),
        Err(ProgramError::InsufficientFunds)
    );
    assert_eq!(ledger.accounts, before.accounts);
}
