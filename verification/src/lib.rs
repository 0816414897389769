//! Batched value-transfer settlement engine.
//!
//! The engine filters eligible signing accounts, groups them into fixed-size
//! transfer sets, assembles the sets into bundles with a single auction bribe
//! per bundle, and drives a submit/confirm/retry loop until every account has
//! been settled or abandoned.  All decisions are made here on plain values;
//! the network round-trips themselves (account lookups, block-reference
//! fetches, simulation, relay submission, status polling) are performed by the
//! surrounding binary, which feeds their results back into the state machine.
use vstd::prelude::*;

pub mod model;
pub mod filter;
pub mod group;
pub mod utils;
pub mod engine;

verus! {

/// Largest number of addresses looked up in one account-existence request.
pub const FETCH_ACCOUNT_LIMIT: usize = 100;

/// Number of blocks after which an unlanded bundle is considered dropped and
/// is resubmitted under a fresh block reference.
pub const SLOT_EXPIRATION: u64 = 150;

/// Arguments of the batched-transfer run: where the signing keys live, who
/// receives the funds, and how much each account sends.
pub struct BatchTransferArgs {
    pub key_folder: String,
    pub recipient: u64,
    pub amount: u64,
}

/// The subcommands the tool offers.
pub enum Command {
    JitoTipStream,
    BundleTransfer(BatchTransferArgs),
}

/// Top-level configuration: the ledger endpoint, the optional auction bribe
/// amount, and the selected subcommand.
pub struct Miner {
    pub rpc: String,
    pub priority_fee: Option<u64>,
    pub command: Command,
}

} // verus!
