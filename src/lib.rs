//! A time-locked deposit escrow that sits in front of a fungible-token ledger.
//!
//! A user is given a deposit address per (user, timelock) pair, derived by
//! hashing. Once tokens have reached that address, the escrow checks the
//! balance, pulls the funds into its own main account and records a deposit
//! that carries the unlock time. The remote calls themselves are made by the
//! host: the workflow here is a sequence of verified steps, each taking the
//! previous step's result and the ledger's reply.
pub mod types;
pub mod subaccount;
pub mod escrow;

pub use types::{Account, Deposit, DepositError, FeatureFlags, Identity, TransferArg};
pub use subaccount::get_deposit_subaccount;
pub use escrow::{EscrowState, PendingDeposit, PendingTransfer, TRANSFER_FEE};

