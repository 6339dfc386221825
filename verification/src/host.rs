//! What the library takes on trust from the Soroban SDK: the host types it
//! carries around and the host calls it makes.
//!
//! A host value is a handle that means something in one host only. The
//! contracts here speak of values that belong to the host they are used
//! with; the values that a contract invocation is given always do.
//!
//! The host meters every call and ends the invocation when its budget is
//! spent. No contract here speaks of that: it is the host's way of running
//! out of memory.

use vstd::prelude::*;
use soroban_sdk::address_payload::AddressPayload;
use soroban_sdk::token::TokenClient;
use soroban_sdk::{Address, Env, InvokeError, TryFromVal, Val};
use crate::batch::Refusal;

verus! {

#[verifier::external_type_specification]
#[verifier::external_body]
pub struct ExEnv(soroban_sdk::Env);

#[verifier::external_type_specification]
#[verifier::external_body]
pub struct ExAddress(soroban_sdk::Address);

#[verifier::external_type_specification]
#[verifier::external_body]
pub struct ExVal(soroban_sdk::Val);

#[verifier::external_type_specification]
#[verifier::external_body]
pub struct ExTokenClient<'a>(soroban_sdk::token::TokenClient<'a>);

#[verifier::external_type_specification]
#[verifier::external_body]
#[verifier::reject_recursive_types(T)]
pub struct ExHostVec<T>(soroban_sdk::Vec<T>);

/// What a recipient list holds, position by position: the values inside the
/// host value at that position where that is a vector, `None` where it is
/// something else.
pub uninterp spec fn entry_parts(list: soroban_sdk::Vec<(Address, i128)>) -> Seq<Option<Seq<Val>>>;

/// The address that a value is in the host of the list, if it is one there.
pub uninterp spec fn address_in(list: soroban_sdk::Vec<(Address, i128)>, value: Val) -> Option<Address>;

/// The 128-bit signed integer that a value is in the host of the list, if it
/// is one there.
pub uninterp spec fn amount_in(list: soroban_sdk::Vec<(Address, i128)>, value: Val) -> Option<i128>;

/// The address is that of a contract, not that of an account.
pub uninterp spec fn is_contract(address: Address) -> bool;

/// The address of the token contract that the client calls.
pub uninterp spec fn token_of(client: TokenClient<'_>) -> Address;

/// `soroban_sdk::Vec::len`: the number of host values in the list.
#[verifier::external_body]
pub(crate) fn entry_count(list: &soroban_sdk::Vec<(Address, i128)>) -> (n: u32)
    ensures
        n == entry_parts(*list).len(),
{
    list.len()
}

/// `soroban_sdk::Vec::get_unchecked` on the untyped list, then the
/// conversion of the value found to a vector of host values, handed out as a
/// `Vec`. The first fails on a position past the end, which `requires` rules
/// out; the conversion gives `None` for a value that is no vector.
#[verifier::external_body]
pub(crate) fn parts_at(list: &soroban_sdk::Vec<(Address, i128)>, i: u32) -> (parts: Option<Vec<Val>>)
    requires
        i < entry_parts(*list).len(),
    ensures
        match parts {
            Some(values) => entry_parts(*list)[i as int] == Some(values@),
            None => entry_parts(*list)[i as int] is None,
        },
{
    let item: Val = list.to_vals().get_unchecked(i);
    match soroban_sdk::Vec::<Val>::try_from_val(list.env(), &item) {
        Ok(values) => Some(values.iter().collect()),
        Err(_) => None,
    }
}

/// `Address::try_from_val`, in the host of the list: the address that a host
/// value is, `None` where it is of another kind.
#[verifier::external_body]
pub(crate) fn as_address(list: &soroban_sdk::Vec<(Address, i128)>, value: &Val) -> (address: Option<Address>)
    ensures
        address == address_in(*list, *value),
{
    Address::try_from_val(list.env(), value).ok()
}

/// `i128::try_from_val`, in the host of the list: the 128-bit signed integer
/// that a host value is, `None` where it is of another kind.
#[verifier::external_body]
pub(crate) fn as_amount(list: &soroban_sdk::Vec<(Address, i128)>, value: &Val) -> (amount: Option<i128>)
    ensures
        amount == amount_in(*list, *value),
{
    i128::try_from_val(list.env(), value).ok()
}

/// `Address::to_payload`: tells an address of a contract from one of an
/// account, by what the address holds.
#[verifier::external_body]
pub(crate) fn names_contract(address: &Address) -> (yes: bool)
    ensures
        yes == is_contract(*address),
{
    matches!(address.to_payload(), Some(AddressPayload::ContractIdHash(_)))
}

/// `soroban_sdk::token::TokenClient::new`: a client for the token contract
/// at `token`.
#[verifier::external_body]
pub(crate) fn token_client<'a>(env: &Env, token: &Address) -> (client: TokenClient<'a>)
    ensures
        token_of(client) == *token,
{
    TokenClient::new(env, token)
}

/// `TokenClient::try_transfer`: asks the token contract to move `amount`
/// from `from` to `to`, and tells why it did not where it did not. The call
/// fails where the token address is that of an account, which `requires`
/// rules out. Whether the token contract makes the transfer depends on the
/// ledger, so nothing is claimed of the answer.
#[verifier::external_body]
pub(crate) fn try_transfer<'a>(client: &TokenClient<'a>, from: &Address, to: &Address, amount: i128) -> Result<(), Refusal>
    requires
        is_contract(token_of(*client)),
{
    match client.try_transfer(from, to, &amount) {
        Ok(Ok(())) => Ok(()),
        Ok(Err(_)) => Err(Refusal::Reply),
        Err(Ok(error)) => match InvokeError::from(error) {
            InvokeError::Contract(code) => Err(Refusal::Contract { code }),
            InvokeError::Abort => Err(Refusal::Abort),
        },
        Err(Err(InvokeError::Contract(code))) => Err(Refusal::Contract { code }),
        Err(Err(InvokeError::Abort)) => Err(Refusal::Abort),
    }
}

/// `TokenClient::try_transfer_from`: asks the token contract to move
/// `amount` from `from` to `to` on the allowance of `spender`, and tells why
/// it did not where it did not. The call fails where the token address is
/// that of an account, which `requires` rules out. Nothing is claimed of the
/// answer.
#[verifier::external_body]
pub(crate) fn try_transfer_from<'a>(client: &TokenClient<'a>, spender: &Address, from: &Address, to: &Address, amount: i128) -> Result<(), Refusal>
    requires
        is_contract(token_of(*client)),
{
    match client.try_transfer_from(spender, from, to, &amount) {
        Ok(Ok(())) => Ok(()),
        Ok(Err(_)) => Err(Refusal::Reply),
        Err(Ok(error)) => match InvokeError::from(error) {
            InvokeError::Contract(code) => Err(Refusal::Contract { code }),
            InvokeError::Abort => Err(Refusal::Abort),
        },
        Err(Err(InvokeError::Contract(code))) => Err(Refusal::Contract { code }),
        Err(Err(InvokeError::Abort)) => Err(Refusal::Abort),
    }
}

/// `soroban_sdk::events::Events::publish`: publishes an event with the
/// topics `(topic, subject)` and the payload `amount`.
#[verifier::external_body]
#[allow(deprecated)]
pub(crate) fn publish(env: &Env, topic: &'static str, subject: &Address, amount: i128) {
    env.events().publish((topic, subject.clone()), amount);
}

} // verus!
