//! Compliance and authority rules of a regulated token: who may mint, who may
//! freeze, which holders are blocked from moving value, and how funds of a
//! flagged holder are seized.
//!
//! The balance ledger is kept elsewhere. Where an operation needs it, the
//! library decides and hands out the request for the ledger; the host carries
//! the request out and reports the answer, which the library then records.

pub mod address;
pub mod blacklist;
pub mod clock;
pub mod config;
pub mod error;
pub mod laws;
pub mod ledger;
pub mod seizure;
pub mod token_ops;

pub use crate::address::Address;
pub use crate::blacklist::{
    add_to_blacklist, add_to_blacklist_at, check_blacklist, remove_from_blacklist,
    remove_from_blacklist_at, Blacklist, BlacklistEntry, CheckBlacklist, ModifyBlacklist,
};
pub use crate::config::{
    initialize, update_freezer, update_minter, Initialize, StablecoinConfig, UpdateAuthority,
};
pub use crate::error::{OperationError, StablecoinError};
pub use crate::ledger::{LedgerCall, LedgerReply, TokenAccount};
pub use crate::seizure::{
    seize_advance, seize_retry, seize_tokens, SeizeTokens, Seizure, SeizureStage,
};
pub use crate::token_ops::{
    freeze_account, mint_to, thaw_account, transfer_hook, FreezeAccount, MintTo, ThawAccount,
};
