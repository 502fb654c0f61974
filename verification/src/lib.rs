//! A two-asset exchange for the Soroban host: a caller swaps an amount of one
//! of two registered assets for the same amount of the other, as long as the
//! contract's reserve of the asset it pays out covers the request.

pub mod contract;
pub mod error;
pub mod host;
pub mod laws;
pub mod ledger;
pub mod protocol;
pub mod storage;

pub use crate::error::SwapError;
pub use crate::storage::{
    found, read_asset, read_asset_a, read_asset_b, write_asset, write_asset_a, write_asset_b,
    DataKey, Registry, Stored,
};
pub use crate::protocol::{
    covers, reserve_covers, verdict, Action, Direction, Event, Observed, Stage, Swap,
};
pub use crate::contract::{Session, SimpleSwap, SimpleSwapTrait};
pub use crate::ledger::{
    ask, carry_out, is_enough_balance, load_contract_balance, perform, reported, request, settled,
    swap_in, swap_out, BalanceQuery, Grant, HostCall, Reply, Transfer,
};
