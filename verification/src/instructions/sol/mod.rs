//! Deposits and withdrawals of native balance.

pub mod init_sol_vault;
pub mod withdraw_sol_vault;
