//! What an instruction asks the ledger to do once it has been accepted.

use vstd::prelude::*;
use crate::pubkey::Pubkey;

verus! {

/// One change to the ledger. An accepted instruction yields a list of
/// them; they are carried out in order, and the first that the ledger
/// refuses undoes the whole instruction.
///
/// Where an effect has `signer_seeds`, the seeds stand in for a signature:
/// the ledger derives an address from them and the vault program's own
/// address, and lets that address sign. They are empty where a signer of
/// the transaction authorizes the effect.
#[derive(Clone, Debug, PartialEq, Eq)]
pub enum Effect {
    /// The system program allocates `space` zero bytes at `to`, gives the
    /// account to `owner` and moves `lamports` from `from` to it.
    CreateAccount {
        from: Pubkey,
        to: Pubkey,
        lamports: u64,
        space: u64,
        owner: Pubkey,
        signer_seeds: Vec<Vec<u8>>,
    },
    /// The bytes of `account` become `data`; the account holds as many
    /// bytes already.
    WriteData { account: Pubkey, data: Vec<u8> },
    /// The system program moves `lamports` from `from` to `to`.
    Transfer { from: Pubkey, to: Pubkey, lamports: u64 },
    /// The token account of `wallet` for the token type `mint` is created
    /// at `account`; `funding_account` pays for it.
    CreateAssociatedTokenAccount {
        funding_account: Pubkey,
        account: Pubkey,
        wallet: Pubkey,
        mint: Pubkey,
        system_program: Pubkey,
        token_program: Pubkey,
    },
    /// The token program moves `amount` base units of the token type
    /// `mint` from the token account `from` to the token account `to`,
    /// and holds the amount against the decimal places that the token
    /// type declares, which are read from `mint` when the effect is
    /// carried out.
    TransferChecked {
        from: Pubkey,
        mint: Pubkey,
        to: Pubkey,
        authority: Pubkey,
        amount: u64,
        signer_seeds: Vec<Vec<u8>>,
    },
    /// The token program closes the token account `account` and moves its
    /// native balance to `destination`.
    CloseTokenAccount {
        account: Pubkey,
        destination: Pubkey,
        authority: Pubkey,
        signer_seeds: Vec<Vec<u8>>,
    },
    /// The byte at `index` of the bytes of `account` becomes `value`.
    WriteByte { account: Pubkey, index: usize, value: u8 },
    /// The bytes of `account` are cut, or filled up with zeros, to `len`.
    Resize { account: Pubkey, len: usize },
    /// The native balance of `account` grows by `lamports`.
    Credit { account: Pubkey, lamports: u64 },
    /// `account` loses its bytes, its balance and its owner: it is as if
    /// it had never been set up.
    Close { account: Pubkey },
}

/// An effect, with its bytes as sequences.
pub enum EffectView {
    CreateAccount {
        from: Pubkey,
        to: Pubkey,
        lamports: u64,
        space: u64,
        owner: Pubkey,
        signer_seeds: Seq<Seq<u8>>,
    },
    WriteData { account: Pubkey, data: Seq<u8> },
    Transfer { from: Pubkey, to: Pubkey, lamports: u64 },
    CreateAssociatedTokenAccount {
        funding_account: Pubkey,
        account: Pubkey,
        wallet: Pubkey,
        mint: Pubkey,
        system_program: Pubkey,
        token_program: Pubkey,
    },
    TransferChecked {
        from: Pubkey,
        mint: Pubkey,
        to: Pubkey,
        authority: Pubkey,
        amount: u64,
        signer_seeds: Seq<Seq<u8>>,
    },
    CloseTokenAccount {
        account: Pubkey,
        destination: Pubkey,
        authority: Pubkey,
        signer_seeds: Seq<Seq<u8>>,
    },
    WriteByte { account: Pubkey, index: usize, value: u8 },
    Resize { account: Pubkey, len: usize },
    Credit { account: Pubkey, lamports: u64 },
    Close { account: Pubkey },
}

impl View for Effect {
    type V = EffectView;

    open spec fn view(&self) -> EffectView {
        match *self {
            Effect::CreateAccount { from, to, lamports, space, owner, signer_seeds } => {
                EffectView::CreateAccount {
                    from,
                    to,
                    lamports,
                    space,
                    owner,
                    signer_seeds: signer_seeds.deep_view(),
                }
            },
            Effect::WriteData { account, data } => EffectView::WriteData {
                account,
                data: data@,
            },
            Effect::Transfer { from, to, lamports } => EffectView::Transfer {
                from,
                to,
                lamports,
            },
            Effect::CreateAssociatedTokenAccount {
                funding_account,
                account,
                wallet,
                mint,
                system_program,
                token_program,
            } => EffectView::CreateAssociatedTokenAccount {
                funding_account,
                account,
                wallet,
                mint,
                system_program,
                token_program,
            },
            Effect::TransferChecked { from, mint, to, authority, amount, signer_seeds } => {
                EffectView::TransferChecked {
                    from,
                    mint,
                    to,
                    authority,
                    amount,
                    signer_seeds: signer_seeds.deep_view(),
                }
            },
            Effect::CloseTokenAccount { account, destination, authority, signer_seeds } => {
                EffectView::CloseTokenAccount {
                    account,
                    destination,
                    authority,
                    signer_seeds: signer_seeds.deep_view(),
                }
            },
            Effect::WriteByte { account, index, value } => EffectView::WriteByte {
                account,
                index,
                value,
            },
            Effect::Resize { account, len } => EffectView::Resize { account, len },
            Effect::Credit { account, lamports } => EffectView::Credit { account, lamports },
            Effect::Close { account } => EffectView::Close { account },
        }
    }
}

/// The effects of a list, each with its bytes as sequences.
pub open spec fn effects_view(effects: Seq<Effect>) -> Seq<EffectView> {
    effects.map_values(|e: Effect| e@)
}

} // verus!
