//! A deposit and its withdrawal on the ledger: nothing is lost, and a
//! vault is used once.

use vstd::prelude::*;
use crate::account::Account;
use crate::effect::EffectView;
use crate::errors::vault_error;
use crate::errors::ProgramError;
use crate::errors::TimeBaseVaultError;
use crate::host::HostReads;
use crate::instructions::closing_effects;
use crate::instructions::withdrawal_rejection;
use crate::instructions::InitializeSolVault;
use crate::instructions::InitializeSplVault;
use crate::instructions::WithdrawSolVault;
use crate::instructions::WithdrawSplVault;
use crate::ledger::lemma_run_concat;
use crate::ledger::lemma_run_unfold;
use crate::ledger::Holding;
use crate::ledger::Ledger;
use crate::processor::parse_rejection;
use crate::pubkey::Pubkey;
use crate::pubkey::ID;
use crate::pubkey::SYSTEM_PROGRAM_ID;
use crate::states::vault::lemma_record_bytes_len;
use crate::states::vault::lemma_record_round_trip;
use crate::states::vault::record_bytes;
use crate::states::vault::record_wf;
use crate::states::vault::stored_record;
use crate::states::VaultView;

verus! {

/// Ending a holding account empties it in favour of the depositor: where
/// the ledger shows the balance that the withdrawal saw and the account
/// holds data, the ledger accepts the effects, the depositor receives the
/// whole balance, the holding account keeps nothing, neither balance nor
/// data nor owner, and no other address sees a change.
pub proof fn lemma_closing(ledger: Ledger, signer: Pubkey, vault: Pubkey, lamports: u64)
    requires
        signer != vault,
        ledger.at(vault).lamports == lamports,
        ledger.at(vault).data.len() > 0,
    ensures
        ledger.accepts_all(closing_effects(signer, vault, lamports)),
        ({
            let after = ledger.run(closing_effects(signer, vault, lamports));
            &&& after.at(signer) == (Holding {
                lamports: (ledger.at(signer).lamports + lamports) as nat,
                ..ledger.at(signer)
            })
            &&& after.at(vault).lamports == 0
            &&& after.at(vault).data.len() == 0
            &&& after.at(vault).owner == SYSTEM_PROGRAM_ID
            &&& after.at(vault).tokens == ledger.at(vault).tokens
            &&& after.token_account_rent == ledger.token_account_rent
            &&& forall|other: Pubkey|
                other != signer && other != vault ==> after.at(other) == ledger.at(other)
        }),
{
    lemma_run_unfold(ledger, closing_effects(signer, vault, lamports));
}

/// A deposit of native balance that the ledger carries out takes the
/// amount and the rent from the depositor and gives both to the holding
/// account, which then stores the record and belongs to the vault
/// program. No other address sees a change, so nothing is lost.
pub proof fn lemma_native_deposit(ix: InitializeSolVault, host: HostReads, ledger: Ledger)
    requires
        ix.rejection(host) is None,
        ix.accounts.signer.key != ix.accounts.vault.key,
        ledger.at(ix.accounts.signer.key).lamports >= host.rent_minimum->Ok_0
            + ix.instruction_data.amount,
    ensures
        ledger.accepts_all(ix.effects(host)),
        ({
            let signer = ix.accounts.signer.key;
            let vault = ix.accounts.vault.key;
            let moved = host.rent_minimum->Ok_0 + ix.instruction_data.amount;
            let after = ledger.run(ix.effects(host));
            &&& after.at(signer) == (Holding {
                lamports: (ledger.at(signer).lamports - moved) as nat,
                ..ledger.at(signer)
            })
            &&& after.at(vault) == (Holding {
                lamports: (ledger.at(vault).lamports + moved) as nat,
                data: record_bytes(ix.record()),
                owner: ID,
                ..ledger.at(vault)
            })
            &&& after.at(signer).lamports + after.at(vault).lamports == ledger.at(
                signer,
            ).lamports + ledger.at(vault).lamports
            &&& after.token_account_rent == ledger.token_account_rent
            &&& forall|other: Pubkey|
                other != signer && other != vault ==> after.at(other) == ledger.at(other)
        }),
{
    lemma_run_unfold(ledger, ix.effects(host));
    lemma_record_bytes_len(ix.record());
}

/// A withdrawal of native balance that is accepted, on a ledger that
/// shows the holding account as the withdrawal saw it, gives the whole
/// balance of the holding account to the depositor and leaves the holding
/// account with nothing. No other address sees a change, so nothing is
/// lost.
pub proof fn lemma_native_withdrawal(ix: WithdrawSolVault, host: HostReads, ledger: Ledger)
    requires
        ix.rejection(host) is None,
        ix.accounts.signer.key != ix.accounts.vault.key,
        ledger.shows(*ix.accounts.vault),
    ensures
        ledger.accepts_all(ix.effects()),
        ({
            let signer = ix.accounts.signer.key;
            let vault = ix.accounts.vault.key;
            let after = ledger.run(ix.effects());
            &&& after.at(signer).lamports == ledger.at(signer).lamports + ledger.at(
                vault,
            ).lamports
            &&& after.at(vault).lamports == 0
            &&& after.at(vault).data.len() == 0
            &&& after.at(vault).owner == SYSTEM_PROGRAM_ID
            &&& forall|other: Pubkey|
                other != signer && other != vault ==> after.at(other) == ledger.at(other)
        }),
{
    lemma_closing(
        ledger,
        ix.accounts.signer.key,
        ix.accounts.vault.key,
        ix.accounts.vault.lamports,
    );
}

/// A deposit of tokens that the ledger carries out takes the rent of the
/// holding account and of the vault's token account from the depositor and
/// gives each to its account, and moves the amount from the depositor's
/// token account to the vault's. The holding account then stores the
/// record and belongs to the vault program. No other address sees a
/// change, so nothing is lost, of either balance.
pub proof fn lemma_token_deposit(ix: InitializeSplVault, host: HostReads, ledger: Ledger)
    requires
        ix.rejection(host) is None,
        ix.accounts.signer.key != ix.accounts.vault.key,
        ix.accounts.signer.key != ix.accounts.vault_ata.key,
        ix.accounts.vault.key != ix.accounts.vault_ata.key,
        ix.accounts.user_ata.key != ix.accounts.vault_ata.key,
        ledger.at(ix.accounts.signer.key).lamports >= host.rent_minimum->Ok_0
            + ledger.token_account_rent,
        ledger.at(ix.accounts.user_ata.key).tokens >= ix.instruction_data.amount,
    ensures
        ledger.accepts_all(ix.effects(host)),
        ({
            let signer = ix.accounts.signer.key;
            let vault = ix.accounts.vault.key;
            let user_ata = ix.accounts.user_ata.key;
            let vault_ata = ix.accounts.vault_ata.key;
            let rent = host.rent_minimum->Ok_0;
            let amount = ix.instruction_data.amount;
            let after = ledger.run(ix.effects(host));
            &&& after.at(signer).lamports == ledger.at(signer).lamports - rent
                - ledger.token_account_rent
            &&& after.at(vault).lamports == ledger.at(vault).lamports + rent
            &&& after.at(vault_ata).lamports == ledger.at(vault_ata).lamports
                + ledger.token_account_rent
            &&& after.at(signer).lamports + after.at(vault).lamports + after.at(
                vault_ata,
            ).lamports == ledger.at(signer).lamports + ledger.at(vault).lamports + ledger.at(
                vault_ata,
            ).lamports
            &&& after.at(user_ata).tokens == ledger.at(user_ata).tokens - amount
            &&& after.at(vault_ata).tokens == ledger.at(vault_ata).tokens + amount
            &&& after.at(vault).data == record_bytes(ix.record())
            &&& after.at(vault).owner == ID
            &&& after.token_account_rent == ledger.token_account_rent
            &&& forall|other: Pubkey|
                other != signer && other != vault && other != user_ata && other != vault_ata
                    ==> after.at(other) == ledger.at(other)
        }),
{
    lemma_run_unfold(ledger, ix.effects(host));
    lemma_record_bytes_len(ix.record());
}

/// A withdrawal of tokens that is accepted, on a ledger that shows the
/// holding account as the withdrawal saw it and on which the vault's token
/// account holds the amount of the record, moves that amount to the
/// depositor's token account and gives the whole native balance of the
/// vault's token account and of the holding account to the depositor.
/// Both accounts are left with nothing. No other address sees a change,
/// so nothing is lost, of either balance.
pub proof fn lemma_token_withdrawal(ix: WithdrawSplVault, host: HostReads, ledger: Ledger)
    requires
        ix.rejection(host) is None,
        ix.accounts.signer.key != ix.accounts.vault.key,
        ix.accounts.signer.key != ix.accounts.vault_ata.key,
        ix.accounts.vault.key != ix.accounts.vault_ata.key,
        ix.accounts.user_ata.key != ix.accounts.vault_ata.key,
        ledger.shows(*ix.accounts.vault),
        ledger.at(ix.accounts.vault_ata.key).tokens == stored_record(
            ix.accounts.vault.data@,
        ).amount,
    ensures
        ledger.accepts_all(ix.effects()),
        ({
            let signer = ix.accounts.signer.key;
            let vault = ix.accounts.vault.key;
            let user_ata = ix.accounts.user_ata.key;
            let vault_ata = ix.accounts.vault_ata.key;
            let amount = stored_record(ix.accounts.vault.data@).amount;
            let after = ledger.run(ix.effects());
            &&& after.at(user_ata).tokens == ledger.at(user_ata).tokens + amount
            &&& after.at(vault_ata).tokens == 0
            &&& after.at(signer).lamports == ledger.at(signer).lamports + ledger.at(
                vault_ata,
            ).lamports + ledger.at(vault).lamports
            &&& after.at(vault_ata).lamports == 0
            &&& after.at(vault).lamports == 0
            &&& after.at(vault).data.len() == 0
            &&& after.at(vault).owner == SYSTEM_PROGRAM_ID
            &&& forall|other: Pubkey|
                other != signer && other != vault && other != user_ata && other != vault_ata
                    ==> after.at(other) == ledger.at(other)
        }),
{
    let record = stored_record(ix.accounts.vault.data@);
    let head = ix.effects().subrange(0, 2);
    let tail = closing_effects(
        ix.accounts.signer.key,
        ix.accounts.vault.key,
        ix.accounts.vault.lamports,
    );
    assert(ix.effects() =~= head + tail);
    lemma_run_concat(ledger, head, tail);
    lemma_run_unfold(ledger, head);
    lemma_closing(
        ledger.run(head),
        ix.accounts.signer.key,
        ix.accounts.vault.key,
        ix.accounts.vault.lamports,
    );
}

/// A withdrawal from a holding account that stores the record of a
/// deposit is decided by the signer and the clock alone: another signer
/// than the depositor is not authorized, whatever the time; the depositor
/// finds the vault locked at every time before the unlock time, and at no
/// other. `mint` is the token type that the withdrawal names, where it
/// withdraws tokens; it is that of the record.
pub proof fn lemma_withdrawal_of_record(
    record: VaultView,
    signer: Pubkey,
    mint: Option<Pubkey>,
    host: HostReads,
)
    requires
        record_wf(record),
        host.clock is Ok,
        mint matches Some(m) ==> record.mint == Some(m@),
    ensures
        withdrawal_rejection(record_bytes(record), signer, mint, host) == (
        if record.owner != signer@ {
            Some(vault_error(TimeBaseVaultError::Unauthorized))
        } else if host.clock->Ok_0 < record.unlock_timestamp {
            Some(vault_error(TimeBaseVaultError::VaultLocking))
        } else {
            None
        }),
{
    lemma_record_round_trip(record);
}

/// A withdrawal of tokens signs with the seeds of the deposit: where the
/// holding account stores the record that a deposit has written, the
/// seeds with which the withdrawal authorizes the transfer out of the
/// vault's token account and the closing of that account are the seeds
/// from which the deposit derived the address of the holding account.
pub proof fn lemma_token_withdrawal_signs_as_deposit(
    deposit: InitializeSplVault,
    withdrawal: WithdrawSplVault,
)
    requires
        withdrawal.accounts.vault.data@ == record_bytes(deposit.record()),
    ensures
        withdrawal.effects()[0] matches EffectView::TransferChecked { amount, signer_seeds, .. }
            && amount == deposit.instruction_data.amount && signer_seeds
            == deposit.spec_seeds(),
        withdrawal.effects()[1] matches EffectView::CloseTokenAccount { signer_seeds, .. }
            && signer_seeds == deposit.spec_seeds(),
{
    lemma_record_round_trip(deposit.record());
}

/// What a deposit of native balance has put into a vault, the depositor
/// has back after the withdrawal, the rent with it: where the ledger
/// carries out an accepted deposit and then an accepted withdrawal by the
/// same signer from the same holding account, the depositor ends with the
/// balance that the two had together, and the holding account with
/// nothing.
pub proof fn lemma_native_round_trip(
    deposit: InitializeSolVault,
    deposit_host: HostReads,
    withdrawal: WithdrawSolVault,
    withdrawal_host: HostReads,
    ledger: Ledger,
)
    requires
        deposit.rejection(deposit_host) is None,
        withdrawal.rejection(withdrawal_host) is None,
        deposit.accounts.signer.key != deposit.accounts.vault.key,
        withdrawal.accounts.signer.key == deposit.accounts.signer.key,
        withdrawal.accounts.vault.key == deposit.accounts.vault.key,
        ledger.at(deposit.accounts.signer.key).lamports >= deposit_host.rent_minimum->Ok_0
            + deposit.instruction_data.amount,
        ledger.run(deposit.effects(deposit_host)).shows(*withdrawal.accounts.vault),
    ensures
        ledger.accepts_all(deposit.effects(deposit_host) + withdrawal.effects()),
        ({
            let signer = deposit.accounts.signer.key;
            let vault = deposit.accounts.vault.key;
            let after = ledger.run(deposit.effects(deposit_host) + withdrawal.effects());
            &&& after.at(signer).lamports == ledger.at(signer).lamports + ledger.at(
                vault,
            ).lamports
            &&& after.at(vault).lamports == 0
            &&& forall|other: Pubkey|
                other != signer && other != vault ==> after.at(other) == ledger.at(other)
        }),
{
    lemma_native_deposit(deposit, deposit_host, ledger);
    lemma_native_withdrawal(
        withdrawal,
        withdrawal_host,
        ledger.run(deposit.effects(deposit_host)),
    );
    lemma_run_concat(ledger, deposit.effects(deposit_host), withdrawal.effects());
}

/// What a deposit of tokens has put into a vault, the depositor has back
/// after the withdrawal, the rent of both accounts with it: where the
/// ledger carries out an accepted deposit and then an accepted withdrawal
/// by the same signer with the same accounts, and the vault's token
/// account held nothing before, the depositor's token account ends with
/// the tokens it had, and the depositor with the native balance that the
/// three accounts had together.
pub proof fn lemma_token_round_trip(
    deposit: InitializeSplVault,
    deposit_host: HostReads,
    withdrawal: WithdrawSplVault,
    withdrawal_host: HostReads,
    ledger: Ledger,
)
    requires
        deposit.rejection(deposit_host) is None,
        withdrawal.rejection(withdrawal_host) is None,
        deposit.accounts.signer.key != deposit.accounts.vault.key,
        deposit.accounts.signer.key != deposit.accounts.vault_ata.key,
        deposit.accounts.vault.key != deposit.accounts.vault_ata.key,
        deposit.accounts.user_ata.key != deposit.accounts.vault_ata.key,
        withdrawal.accounts.signer.key == deposit.accounts.signer.key,
        withdrawal.accounts.vault.key == deposit.accounts.vault.key,
        withdrawal.accounts.user_ata.key == deposit.accounts.user_ata.key,
        withdrawal.accounts.vault_ata.key == deposit.accounts.vault_ata.key,
        ledger.at(deposit.accounts.signer.key).lamports >= deposit_host.rent_minimum->Ok_0
            + ledger.token_account_rent,
        ledger.at(deposit.accounts.user_ata.key).tokens >= deposit.instruction_data.amount,
        ledger.at(deposit.accounts.vault_ata.key).tokens == 0,
        ledger.run(deposit.effects(deposit_host)).shows(*withdrawal.accounts.vault),
    ensures
        ledger.accepts_all(deposit.effects(deposit_host) + withdrawal.effects()),
        ({
            let signer = deposit.accounts.signer.key;
            let vault = deposit.accounts.vault.key;
            let user_ata = deposit.accounts.user_ata.key;
            let vault_ata = deposit.accounts.vault_ata.key;
            let after = ledger.run(
                deposit.effects(deposit_host) + withdrawal.effects(),
            );
            &&& after.at(user_ata).tokens == ledger.at(user_ata).tokens
            &&& after.at(vault_ata).tokens == 0
            &&& after.at(signer).lamports == ledger.at(signer).lamports + ledger.at(
                vault,
            ).lamports + ledger.at(vault_ata).lamports
            &&& after.at(vault).lamports == 0
            &&& after.at(vault_ata).lamports == 0
            &&& forall|other: Pubkey|
                other != signer && other != vault && other != user_ata && other != vault_ata
                    ==> after.at(other) == ledger.at(other)
        }),
{
    lemma_token_deposit(deposit, deposit_host, ledger);
    let middle = ledger.run(deposit.effects(deposit_host));
    lemma_record_round_trip(deposit.record());
    lemma_token_withdrawal(withdrawal, withdrawal_host, middle);
    lemma_run_concat(
        ledger,
        deposit.effects(deposit_host),
        withdrawal.effects(),
    );
}

/// A vault is withdrawn once: after the ledger has carried out an
/// accepted withdrawal of native balance, every withdrawal from the same
/// address, of either kind, that names the right number of accounts and
/// is signed, is refused because the account's data is invalid.
pub proof fn lemma_native_withdrawal_is_single_use(
    first: WithdrawSolVault,
    host: HostReads,
    ledger: Ledger,
    accounts: Seq<Account>,
    instruction_data: Seq<u8>,
)
    requires
        first.rejection(host) is None,
        first.accounts.signer.key != first.accounts.vault.key,
        ledger.shows(*first.accounts.vault),
        instruction_data.len() > 0,
        instruction_data[0] == 1 && accounts.len() == 2 || instruction_data[0] == 3
            && accounts.len() == 7,
        accounts[0].is_signer,
        accounts[1].key == first.accounts.vault.key,
        ledger.run(first.effects()).shows(accounts[1]),
    ensures
        parse_rejection(accounts, instruction_data) == Some(ProgramError::InvalidAccountData),
{
    lemma_native_withdrawal(first, host, ledger);
}

/// A vault is withdrawn once: after the ledger has carried out an
/// accepted withdrawal of tokens, every withdrawal from the same address,
/// of either kind, that names the right number of accounts and is signed,
/// is refused because the account's data is invalid.
pub proof fn lemma_token_withdrawal_is_single_use(
    first: WithdrawSplVault,
    host: HostReads,
    ledger: Ledger,
    accounts: Seq<Account>,
    instruction_data: Seq<u8>,
)
    requires
        first.rejection(host) is None,
        first.accounts.signer.key != first.accounts.vault.key,
        first.accounts.signer.key != first.accounts.vault_ata.key,
        first.accounts.vault.key != first.accounts.vault_ata.key,
        first.accounts.user_ata.key != first.accounts.vault_ata.key,
        ledger.shows(*first.accounts.vault),
        ledger.at(first.accounts.vault_ata.key).tokens == stored_record(
            first.accounts.vault.data@,
        ).amount,
        instruction_data.len() > 0,
        instruction_data[0] == 1 && accounts.len() == 2 || instruction_data[0] == 3
            && accounts.len() == 7,
        accounts[0].is_signer,
        accounts[1].key == first.accounts.vault.key,
        ledger.run(first.effects()).shows(accounts[1]),
    ensures
        parse_rejection(accounts, instruction_data) == Some(ProgramError::InvalidAccountData),
{
    lemma_token_withdrawal(first, host, ledger);
}

/// A holding account takes one deposit: a deposit, of either kind, that
/// names the right number of accounts, is signed and may change the
/// holding account, is refused as already initialized where that account
/// holds data, and passes this check where it holds none, as after a
/// withdrawal.
pub proof fn lemma_deposit_needs_empty_account(accounts: Seq<Account>, instruction_data: Seq<u8>)
    requires
        instruction_data.len() == 18,
        instruction_data[0] == 0 && accounts.len() == 3 || instruction_data[0] == 2
            && accounts.len() == 8,
        accounts[0].is_signer,
        accounts[1].is_writable,
    ensures
        accounts[1].data@.len() > 0 ==> parse_rejection(accounts, instruction_data) == Some(
            ProgramError::AccountAlreadyInitialized,
        ),
        accounts[1].data@.len() == 0 ==> parse_rejection(accounts, instruction_data) is None,
{
}

/// After the ledger has carried out an accepted deposit of native
/// balance, a second deposit into the same holding account, of either
/// kind, is refused as already initialized.
pub proof fn lemma_native_deposit_is_single_use(
    first: InitializeSolVault,
    host: HostReads,
    ledger: Ledger,
    accounts: Seq<Account>,
    instruction_data: Seq<u8>,
)
    requires
        first.rejection(host) is None,
        first.accounts.signer.key != first.accounts.vault.key,
        ledger.at(first.accounts.signer.key).lamports >= host.rent_minimum->Ok_0
            + first.instruction_data.amount,
        instruction_data.len() == 18,
        instruction_data[0] == 0 && accounts.len() == 3 || instruction_data[0] == 2
            && accounts.len() == 8,
        accounts[0].is_signer,
        accounts[1].is_writable,
        accounts[1].key == first.accounts.vault.key,
        ledger.run(first.effects(host)).shows(accounts[1]),
    ensures
        parse_rejection(accounts, instruction_data) == Some(
            ProgramError::AccountAlreadyInitialized,
        ),
{
    lemma_native_deposit(first, host, ledger);
    lemma_record_bytes_len(first.record());
}

/// After the ledger has carried out an accepted deposit of tokens, a
/// second deposit into the same holding account, of either kind, is
/// refused as already initialized.
pub proof fn lemma_token_deposit_is_single_use(
    first: InitializeSplVault,
    host: HostReads,
    ledger: Ledger,
    accounts: Seq<Account>,
    instruction_data: Seq<u8>,
)
    requires
        first.rejection(host) is None,
        first.accounts.signer.key != first.accounts.vault.key,
        first.accounts.signer.key != first.accounts.vault_ata.key,
        first.accounts.vault.key != first.accounts.vault_ata.key,
        first.accounts.user_ata.key != first.accounts.vault_ata.key,
        ledger.at(first.accounts.signer.key).lamports >= host.rent_minimum->Ok_0
            + ledger.token_account_rent,
        ledger.at(first.accounts.user_ata.key).tokens >= first.instruction_data.amount,
        instruction_data.len() == 18,
        instruction_data[0] == 0 && accounts.len() == 3 || instruction_data[0] == 2
            && accounts.len() == 8,
        accounts[0].is_signer,
        accounts[1].is_writable,
        accounts[1].key == first.accounts.vault.key,
        ledger.run(first.effects(host)).shows(accounts[1]),
    ensures
        parse_rejection(accounts, instruction_data) == Some(
            ProgramError::AccountAlreadyInitialized,
        ),
{
    lemma_token_deposit(first, host, ledger);
    lemma_record_bytes_len(first.record());
}

/// A holding account that has been withdrawn is free again: after the
/// ledger has carried out an accepted withdrawal of native balance, a
/// deposit into the same address, of either kind, that names the right
/// number of accounts, is signed and may change the holding account, is
/// not refused for its accounts or the length of its parameters.
pub proof fn lemma_native_withdrawal_frees_address(
    first: WithdrawSolVault,
    host: HostReads,
    ledger: Ledger,
    accounts: Seq<Account>,
    instruction_data: Seq<u8>,
)
    requires
        first.rejection(host) is None,
        first.accounts.signer.key != first.accounts.vault.key,
        ledger.shows(*first.accounts.vault),
        instruction_data.len() == 18,
        instruction_data[0] == 0 && accounts.len() == 3 || instruction_data[0] == 2
            && accounts.len() == 8,
        accounts[0].is_signer,
        accounts[1].is_writable,
        accounts[1].key == first.accounts.vault.key,
        ledger.run(first.effects()).shows(accounts[1]),
    ensures
        parse_rejection(accounts, instruction_data) is None,
{
    lemma_native_withdrawal(first, host, ledger);
}

/// A holding account that has been withdrawn is free again: after the
/// ledger has carried out an accepted withdrawal of tokens, a deposit into
/// the same address, of either kind, that names the right number of
/// accounts, is signed and may change the holding account, is not refused
/// for its accounts or the length of its parameters.
pub proof fn lemma_token_withdrawal_frees_address(
    first: WithdrawSplVault,
    host: HostReads,
    ledger: Ledger,
    accounts: Seq<Account>,
    instruction_data: Seq<u8>,
)
    requires
        first.rejection(host) is None,
        first.accounts.signer.key != first.accounts.vault.key,
        first.accounts.signer.key != first.accounts.vault_ata.key,
        first.accounts.vault.key != first.accounts.vault_ata.key,
        first.accounts.user_ata.key != first.accounts.vault_ata.key,
        ledger.shows(*first.accounts.vault),
        ledger.at(first.accounts.vault_ata.key).tokens == stored_record(
            first.accounts.vault.data@,
        ).amount,
        instruction_data.len() == 18,
        instruction_data[0] == 0 && accounts.len() == 3 || instruction_data[0] == 2
            && accounts.len() == 8,
        accounts[0].is_signer,
        accounts[1].is_writable,
        accounts[1].key == first.accounts.vault.key,
        ledger.run(first.effects()).shows(accounts[1]),
    ensures
        parse_rejection(accounts, instruction_data) is None,
{
    lemma_token_withdrawal(first, host, ledger);
}

} // verus!
