//! Time-locked custody of native and token balances.
//!
//! A depositor locks an amount in a holding account whose address is
//! derived from the depositor, the token type if there is one, the amount,
//! the unlock time and a bump. Only the depositor withdraws, and only from
//! the unlock time on; a withdrawal ends the holding account.
//!
//! The crate decides; it does not act. An instruction is read from its
//! bytes and from the accounts as the ledger shows them
//! ([`processor::Instruction::parse`]). The caller asks the ledger what
//! the instruction needs to know ([`host::HostReads`]), and the
//! instruction is decided ([`processor::process_instruction`]): either it
//! is refused, with the reason, or it yields the list of effects
//! ([`effect::Effect`]) that the caller is to carry out on the ledger in
//! order. What the effects mean for balances is stated in [`ledger`], and
//! what follows for a deposit and its withdrawal is proved in
//! [`lifecycle`].

pub mod account;
pub mod bytes;
pub mod effect;
pub mod errors;
pub mod host;
pub mod instructions;
pub mod ledger;
pub mod lifecycle;
pub mod processor;
pub mod pubkey;
pub mod states;

pub use pubkey::ID;
