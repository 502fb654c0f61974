//! The ways in which a call into the swap contract fails.

use crate::storage::DataKey;
use vstd::prelude::*;

verus! {

/// Why a call failed. Every failure is final: the caller is expected to give
/// the whole invocation up.
#[derive(Clone, Copy, PartialEq, Eq, Structural, Debug)]
pub enum SwapError {
    /// An asset was read from a slot that construction has not filled yet.
    ConfigurationMissing(DataKey),
    /// Construction was asked for although the assets are already set.
    AlreadyConstructed,
    /// The account has not authorized the invocation.
    AuthorizationDenied,
    /// The contract holds less of the output asset than was asked for.
    InsufficientReserve,
    /// The ledger gave no balance when asked for the contract's reserve.
    LedgerQueryFailed,
    /// The ledger refused a transfer.
    LedgerTransferFailed,
}

impl SwapError {
    /// The text of the failure.
    pub open spec fn text(self) -> Seq<char> {
        match self {
            SwapError::ConfigurationMissing(DataKey::AssetA) => "Asset A not set"@,
            SwapError::ConfigurationMissing(DataKey::AssetB) => "Asset B not set"@,
            SwapError::AlreadyConstructed => "Assets already set"@,
            SwapError::AuthorizationDenied => "Authorization denied"@,
            SwapError::InsufficientReserve => "Not enough balance to swap"@,
            SwapError::LedgerQueryFailed => "Ledger balance query failed"@,
            SwapError::LedgerTransferFailed => "Ledger transfer failed"@,
        }
    }

    /// The failure as a message for people.
    pub fn message(&self) -> (text: String)
        ensures
            text@ == self.text(),
    {
        match self {
            SwapError::ConfigurationMissing(DataKey::AssetA) => "Asset A not set".to_owned(),
            SwapError::ConfigurationMissing(DataKey::AssetB) => "Asset B not set".to_owned(),
            SwapError::AlreadyConstructed => "Assets already set".to_owned(),
            SwapError::AuthorizationDenied => "Authorization denied".to_owned(),
            SwapError::InsufficientReserve => "Not enough balance to swap".to_owned(),
            SwapError::LedgerQueryFailed => "Ledger balance query failed".to_owned(),
            SwapError::LedgerTransferFailed => "Ledger transfer failed".to_owned(),
        }
    }
}

} // verus!
