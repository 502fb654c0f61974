//! The Soroban host, as far as the swap contract reaches into it.
//!
//! Everything in this module is believed, not proved: each function stands for
//! one call into `soroban_sdk`. The calls are made from within a running
//! contract; the host may end the whole invocation when its budget is used
//! up.

use crate::ledger::{BalanceQuery, Grant, Reply, Transfer};
use crate::storage::Stored;
use soroban_sdk::address_payload::AddressPayload;
use soroban_sdk::auth::{ContractContext, InvokerContractAuthEntry, SubContractInvocation};
use soroban_sdk::token::TokenClient;
use soroban_sdk::{Address, BytesN, Env, IntoVal, Symbol, TryFromVal, Val, Vec};
use vstd::prelude::*;

verus! {

/// `soroban_sdk::Env`, the handle to the host. Opaque to the verifier.
#[verifier::external_type_specification]
#[verifier::external_body]
pub struct ExEnv(soroban_sdk::Env);

/// `soroban_sdk::Address`, an account or a contract. Opaque to the verifier.
#[verifier::external_type_specification]
#[verifier::external_body]
pub struct ExAddress(soroban_sdk::Address);

/// A character that `soroban_sdk::Symbol` admits: `a-z`, `A-Z`, `0-9`, `_`.
pub open spec fn symbol_char(c: char) -> bool {
    ||| 'a' <= c <= 'z'
    ||| 'A' <= c <= 'Z'
    ||| '0' <= c <= '9'
    ||| c == '_'
}

/// A text that `soroban_sdk::Symbol::new` turns into a symbol: at most 32
/// characters, each of them admitted. On any other text it panics.
pub open spec fn symbol_text(s: Seq<char>) -> bool {
    &&& s.len() <= 32
    &&& forall|i: int| 0 <= i < s.len() ==> symbol_char(#[trigger] s[i])
}

/// `Env::current_contract_address`: the address of the contract that is
/// running. Nothing is claimed of it.
pub assume_specification[ soroban_sdk::Env::current_contract_address ](
    env: &Env,
) -> Address;

/// `Clone::clone` of `Address`: a second handle to the same address.
pub assume_specification[ <soroban_sdk::Address as Clone>::clone ](
    address: &Address,
) -> (copy: Address)
    ensures
        copy == *address,
;

/// `Address::to_payload`: the 32-byte hash of a contract's address, and
/// `None` for the address of an account or of a kind that is not known.
#[verifier::external_body]
pub(crate) fn contract_hash(address: &Address) -> Option<[u8; 32]> {
    match address.to_payload() {
        Some(AddressPayload::ContractIdHash(hash)) => Some(hash.to_array()),
        Some(AddressPayload::AccountIdPublicKeyEd25519(_)) => None,
        None => None,
    }
}

/// `Instance::get` on the running contract's instance storage, under the key
/// that a unit variant named `slot` of a contract type has: the one-element
/// tuple of the symbol `slot`. The value is read as it is stored and then
/// converted by `Address::try_from_val`, so that every outcome is handed on:
/// nothing stored, an address, or a value that is no address.
#[verifier::external_body]
pub(crate) fn instance_get(env: &Env, slot: &str) -> (stored: Stored)
    requires
        symbol_text(slot@),
{
    match env.storage().instance().get::<_, Val>(&(Symbol::new(env, slot),)) {
        None => Stored::Nothing,
        Some(value) => match Address::try_from_val(env, &value) {
            Ok(asset) => Stored::Asset(asset),
            Err(_) => Stored::Other,
        },
    }
}

/// `Instance::set` on the running contract's instance storage, under the same
/// key as `instance_get`.
#[verifier::external_body]
pub(crate) fn instance_set(env: &Env, slot: &str, value: &Address)
    requires
        symbol_text(slot@),
{
    env.storage().instance().set(&(Symbol::new(env, slot),), value)
}

/// `TokenClient::try_balance` on the contract whose address has the hash
/// `contract` (built by `Address::from_payload`), for `query.holder`. Every
/// way in which the call comes back is handed on: with a balance, with a
/// value that is no balance, or as a failure of the contract called.
#[verifier::external_body]
pub(crate) fn token_balance(env: &Env, contract: &[u8; 32], query: &BalanceQuery) -> Reply<i128> {
    let hash = AddressPayload::ContractIdHash(BytesN::from_array(env, contract));
    let token = TokenClient::new(env, &Address::from_payload(env, hash));
    match token.try_balance(&query.holder) {
        Ok(Ok(balance)) => Reply::Answer(balance),
        Ok(Err(_)) => Reply::Unreadable,
        Err(_) => Reply::Failed,
    }
}

/// `TokenClient::try_transfer` on the contract whose address has the hash
/// `contract` (built by `Address::from_payload`), of `transfer.amount` from
/// `transfer.from` to `transfer.to`. Every way in which the call comes back
/// is handed on: without a value, as a transfer that was carried out does;
/// with a value; or as a failure of the contract called, whose doings the
/// host has then undone.
#[verifier::external_body]
pub(crate) fn token_transfer(env: &Env, contract: &[u8; 32], transfer: &Transfer) -> Reply<()> {
    let hash = AddressPayload::ContractIdHash(BytesN::from_array(env, contract));
    let token = TokenClient::new(env, &Address::from_payload(env, hash));
    match token.try_transfer(&transfer.from, &transfer.to, &transfer.amount) {
        Ok(Ok(())) => Reply::Answer(()),
        Ok(Err(_)) => Reply::Unreadable,
        Err(_) => Reply::Failed,
    }
}

/// `Env::authorize_as_current_contract` with one entry: the call of
/// `grant.function` on the contract at `grant.call.asset` with the arguments
/// `(grant.call.from, grant.call.to, grant.call.amount)`, and no calls below
/// it.
#[verifier::external_body]
pub(crate) fn authorize_call(env: &Env, grant: &Grant)
    requires
        symbol_text(grant.function@),
{
    let call = &grant.call;
    let context = ContractContext {
        contract: call.asset.clone(),
        fn_name: Symbol::new(env, grant.function),
        args: (call.from.clone(), call.to.clone(), call.amount).into_val(env),
    };
    let entry = InvokerContractAuthEntry::Contract(
        SubContractInvocation { context, sub_invocations: Vec::new(env) },
    );
    env.authorize_as_current_contract(Vec::from_array(env, [entry]))
}

} // verus!
