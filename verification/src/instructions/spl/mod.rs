//! Deposits and withdrawals of tokens.

pub mod init_spl_vault;
pub mod withdraw_spl_vault;
