//! Bookkeeping and decision logic of a service that turns ledger payments
//! into cycle grants and freshly provisioned multisig canisters.
//!
//! The asynchronous calls to the ledger, the cycles minting canister and the
//! management canister are made by the caller of this library; each step of
//! the provisioning saga hands its outcome to a function of [`store::Store`],
//! which records it and decides the next step.
pub mod types;
pub mod ledger;
pub mod store;
pub mod saga;
pub mod laws;

pub use ledger::{ArchivedRange, BlockLocation, Ledger, LedgerBlock, LedgerOperation};
pub use saga::{LedgerTransfer, TopUpStep};
pub use store::Store;
pub use types::{MultisigData, TransactionData, TransactionStatus, ValidationError};
