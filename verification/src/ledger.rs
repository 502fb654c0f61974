//! The contract's dealings with the ledger: what is asked of it, what comes
//! back, and what that amounts to.

use crate::error::SwapError;
use crate::host::{authorize_call, contract_hash, symbol_text, token_balance, token_transfer};
use crate::protocol::{covers, reserve_covers, Action, Direction, Event};
use crate::storage::{read_asset, Registry};
use soroban_sdk::{Address, Env};
use vstd::prelude::*;

verus! {

/// How a call to the ledger came back.
#[derive(Debug, PartialEq, Eq)]
pub enum Reply<T> {
    /// With the answer that was asked for.
    Answer(T),
    /// With a value of another kind than was asked for.
    Unreadable,
    /// Not at all: the ledger failed, or there is no ledger at the address.
    Failed,
}

/// The question what `holder` holds of `asset`.
#[derive(Debug, PartialEq, Eq)]
pub struct BalanceQuery {
    pub asset: Address,
    pub holder: Address,
}

/// The request to move `amount` of `asset` from `from` to `to`.
#[derive(Debug, PartialEq, Eq)]
pub struct Transfer {
    pub asset: Address,
    pub from: Address,
    pub to: Address,
    pub amount: i128,
}

/// The permission, for the running invocation only, to make the one call
/// `call` of the function `function` on the asset's ledger.
#[derive(Debug, PartialEq, Eq)]
pub struct Grant {
    pub function: &'static str,
    pub call: Transfer,
}

/// One call to the host that a swap makes on the ledger's side.
#[derive(Debug, PartialEq, Eq)]
pub enum HostCall {
    Grant(Grant),
    Balance(BalanceQuery),
    Transfer(Transfer),
}

impl BalanceQuery {
    /// The question what the contract itself holds of `asset`.
    pub fn own(asset: Address, contract: Address) -> (query: BalanceQuery)
        ensures
            query == (BalanceQuery { asset, holder: contract }),
    {
        BalanceQuery { asset, holder: contract }
    }
}

impl Transfer {
    /// The transfer that pulls `amount` of `asset` in: from `payer` to the
    /// contract.
    pub fn inbound(asset: Address, payer: Address, contract: Address, amount: i128) -> (transfer:
        Transfer)
        ensures
            transfer == (Transfer { asset, from: payer, to: contract, amount }),
    {
        Transfer { asset, from: payer, to: contract, amount }
    }

    /// The transfer that pushes `amount` of `asset` out: from the contract to
    /// `payee`.
    pub fn outbound(asset: Address, contract: Address, payee: Address, amount: i128) -> (transfer:
        Transfer)
        ensures
            transfer == (Transfer { asset, from: contract, to: payee, amount }),
    {
        Transfer { asset, from: contract, to: payee, amount }
    }
}

impl Grant {
    /// The permission to make the transfer `call`.
    pub fn of(call: Transfer) -> (grant: Grant)
        ensures
            grant == (Grant { function: "transfer", call }),
            symbol_text(grant.function@),
    {
        proof {
            reveal_strlit("transfer");
        }
        Grant { function: "transfer", call }
    }
}

/// The call that `action` stands for, between the caller `account` and the
/// contract `contract`, on the assets that `registry` holds: none for an
/// action that is no business of the ledger's, and none where the registry
/// lacks the asset.
pub open spec fn call_for(action: Action, registry: Registry, account: Address, contract: Address)
    -> Option<HostCall> {
    match action {
        Action::Delegate { asset, amount } => match registry.slot(asset) {
            Some(ledger) => Some(
                HostCall::Grant(
                    Grant {
                        function: "transfer",
                        call: Transfer { asset: ledger, from: account, to: contract, amount },
                    },
                ),
            ),
            None => None,
        },
        Action::ReadReserve { asset } => match registry.slot(asset) {
            Some(ledger) => Some(HostCall::Balance(BalanceQuery { asset: ledger, holder: contract })),
            None => None,
        },
        Action::PullIn { asset, amount } => match registry.slot(asset) {
            Some(ledger) => Some(
                HostCall::Transfer(Transfer { asset: ledger, from: account, to: contract, amount }),
            ),
            None => None,
        },
        Action::PushOut { asset, amount } => match registry.slot(asset) {
            Some(ledger) => Some(
                HostCall::Transfer(Transfer { asset: ledger, from: contract, to: account, amount }),
            ),
            None => None,
        },
        _ => None,
    }
}

/// Makes the call that `action` stands for.
pub fn request(action: Action, registry: &Registry, account: &Address, contract: &Address) -> (call:
    Option<HostCall>)
    ensures
        call == call_for(action, *registry, *account, *contract),
        call matches Some(HostCall::Grant(grant)) ==> symbol_text(grant.function@),
{
    match action {
        Action::Delegate { asset, amount } => match registry.asset(asset) {
            Ok(ledger) => Some(
                HostCall::Grant(
                    Grant::of(Transfer::inbound(ledger, account.clone(), contract.clone(), amount)),
                ),
            ),
            Err(_) => None,
        },
        Action::ReadReserve { asset } => match registry.asset(asset) {
            Ok(ledger) => Some(HostCall::Balance(BalanceQuery::own(ledger, contract.clone()))),
            Err(_) => None,
        },
        Action::PullIn { asset, amount } => match registry.asset(asset) {
            Ok(ledger) => Some(
                HostCall::Transfer(
                    Transfer::inbound(ledger, account.clone(), contract.clone(), amount),
                ),
            ),
            Err(_) => None,
        },
        Action::PushOut { asset, amount } => match registry.asset(asset) {
            Ok(ledger) => Some(
                HostCall::Transfer(
                    Transfer::outbound(ledger, contract.clone(), account.clone(), amount),
                ),
            ),
            Err(_) => None,
        },
        _ => None,
    }
}

/// What a transfer amounts to, given how the ledger came back: done if it
/// came back without a value, and failed otherwise.
pub open spec fn settlement(reply: Reply<()>) -> Result<(), SwapError> {
    match reply {
        Reply::Answer(_) => Ok(()),
        Reply::Unreadable => Err(SwapError::LedgerTransferFailed),
        Reply::Failed => Err(SwapError::LedgerTransferFailed),
    }
}

/// Turns the ledger's reply to a transfer into the transfer's result.
pub fn settled(reply: Reply<()>) -> (done: Result<(), SwapError>)
    ensures
        done == settlement(reply),
{
    match reply {
        Reply::Answer(_) => Ok(()),
        Reply::Unreadable => Err(SwapError::LedgerTransferFailed),
        Reply::Failed => Err(SwapError::LedgerTransferFailed),
    }
}

/// What a balance query amounts to, given how the ledger came back: the
/// balance if it gave one, and a failed query otherwise.
pub open spec fn report(reply: Reply<i128>) -> Result<i128, SwapError> {
    match reply {
        Reply::Answer(balance) => Ok(balance),
        Reply::Unreadable => Err(SwapError::LedgerQueryFailed),
        Reply::Failed => Err(SwapError::LedgerQueryFailed),
    }
}

/// Turns the ledger's reply to a balance query into the query's result.
pub fn reported(reply: Reply<i128>) -> (balance: Result<i128, SwapError>)
    ensures
        balance == report(reply),
{
    match reply {
        Reply::Answer(balance) => Ok(balance),
        Reply::Unreadable => Err(SwapError::LedgerQueryFailed),
        Reply::Failed => Err(SwapError::LedgerQueryFailed),
    }
}

/// Puts the question `query` to the ledger. The only failure is that no
/// balance came back, also where the asset is no contract at all.
pub fn ask(env: &Env, query: &BalanceQuery) -> (balance: Result<i128, SwapError>)
    ensures
        balance is Err ==> balance == Err::<i128, SwapError>(SwapError::LedgerQueryFailed),
{
    match contract_hash(&query.asset) {
        Some(contract) => reported(token_balance(env, &contract, query)),
        None => reported(Reply::Failed),
    }
}

/// Has the ledger carry `request` out. The only failure is that it did not,
/// also where the asset is no contract at all.
pub fn carry_out(env: &Env, request: &Transfer) -> (done: Result<(), SwapError>)
    ensures
        done is Err ==> done == Err::<(), SwapError>(SwapError::LedgerTransferFailed),
{
    match contract_hash(&request.asset) {
        Some(ledger) => transfer(env, &ledger, request),
        None => settled(Reply::Failed),
    }
}

/// Makes `call` on the host and hands back what a run hears of it.
pub fn perform(env: &Env, call: &HostCall) -> (event: Event)
    requires
        call matches HostCall::Grant(grant) ==> symbol_text(grant.function@),
    ensures
        call is Grant ==> event == Event::Delegated,
        call is Balance ==> event is Reserve || event is ReserveUnknown,
        call is Transfer ==> event is Transfer,
{
    match call {
        HostCall::Grant(grant) => {
            authorize_call(env, grant);
            Event::Delegated
        },
        HostCall::Balance(query) => match ask(env, query) {
            Ok(held) => Event::Reserve(held),
            Err(_) => Event::ReserveUnknown,
        },
        HostCall::Transfer(request) => Event::Transfer(carry_out(env, request).is_ok()),
    }
}

/// Whether the contract holds enough of the asset that it pays out in the
/// given direction to cover `amount`. It fails where the asset has not been
/// set, and where the ledger gives no balance.
pub fn is_enough_balance(env: &Env, is_sell_asset_a: bool, amount: i128) -> (enough: Result<
    bool,
    SwapError,
>)
    ensures
        enough is Err ==> enough == Err::<bool, SwapError>(
            SwapError::ConfigurationMissing(Direction::of(is_sell_asset_a).output()),
        ) || enough == Err::<bool, SwapError>(SwapError::LedgerQueryFailed),
        enough is Ok ==> exists|balance: i128|
            enough == Ok::<bool, SwapError>(#[trigger] covers(balance, amount)),
{
    let asset = read_asset(env, Direction::from_flag(is_sell_asset_a).asset_out());
    match asset {
        Ok(asset_address) => match load_contract_balance(env, asset_address) {
            Ok(contract_balance) => Ok(reserve_covers(contract_balance, amount)),
            Err(error) => Err(error),
        },
        Err(error) => Err(error),
    }
}

/// What the contract itself holds of `asset`, as the ledger reports it now:
/// the answer to the question that `BalanceQuery::own` makes. The only
/// failure is that the ledger gave no balance.
pub fn load_contract_balance(env: &Env, asset: Address) -> (balance: Result<i128, SwapError>)
    ensures
        balance is Err ==> balance == Err::<i128, SwapError>(SwapError::LedgerQueryFailed),
{
    let contract = env.current_contract_address();
    ask(env, &BalanceQuery::own(asset, contract))
}

/// Pulls `amount` of `asset` in: has the ledger carry out the transfer that
/// `Transfer::inbound` makes, from `from` to the contract.
pub fn swap_in(env: &Env, asset: Address, from: Address, amount: i128) -> (done: Result<
    (),
    SwapError,
>)
    ensures
        done is Err ==> done == Err::<(), SwapError>(SwapError::LedgerTransferFailed),
{
    let contract = env.current_contract_address();
    carry_out(env, &Transfer::inbound(asset, from, contract, amount))
}

/// Pushes `amount` of `asset` out: has the ledger carry out the transfer
/// that `Transfer::outbound` makes, from the contract to `to`.
pub fn swap_out(env: &Env, asset: Address, to: Address, amount: i128) -> (done: Result<
    (),
    SwapError,
>)
    ensures
        done is Err ==> done == Err::<(), SwapError>(SwapError::LedgerTransferFailed),
{
    let contract = env.current_contract_address();
    carry_out(env, &Transfer::outbound(asset, contract, to, amount))
}

/// Asks the ledger at the contract with the hash `ledger` to make the move
/// that `request` describes.
fn transfer(env: &Env, ledger: &[u8; 32], request: &Transfer) -> (done: Result<(), SwapError>)
    ensures
        done is Err ==> done == Err::<(), SwapError>(SwapError::LedgerTransferFailed),
{
    settled(token_transfer(env, ledger, request))
}

} // verus!
