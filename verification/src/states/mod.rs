//! What the vault stores on the ledger.

pub mod vault;

pub use vault::Vault;
pub use vault::VaultView;
