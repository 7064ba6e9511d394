//! A counting contract: it counts the donations that reach a minimal amount,
//! forwards part of what it holds to a parent contract every so many counted
//! donations, lets its owner reset the counter and withdraw the balance, and
//! migrates the store of its two earlier layouts.
//!
//! The host keeps the store, knows the balance and carries out messages. The
//! functions here decide: they take the store as [`state::Storage`], the
//! caller and the attached funds as [`host::MessageInfo`] and the host's
//! answer about the balance, and give back the store as it is to be written
//! and a [`response::Response`] with the messages for the host.

use vstd::prelude::*;
use crate::coin::{Coin, CoinView};
use crate::contract::exec::{donate_spec, reset_spec, withdraw_spec};
use crate::contract::{instantiate_spec, migrate_spec};
use crate::error::{ContractError, ContractErrorView, StdError, StdErrorView};
use crate::host::{balance_view, MessageInfo, MessageInfoView};
use crate::msg::{ExecMsg, InstantiateMsg, QueryMsg, ValueResp};
use crate::response::{Response, ResponseView};
use crate::state::{not_found, Storage, StorageView, STATE_KEY};

pub mod addr;
pub mod coin;
pub mod contract;
pub mod decimal;
pub mod error;
pub mod host;
pub mod laws;
pub mod msg;
pub mod response;
pub mod state;
pub mod text;

verus! {

/// Sets the contract up as `msg` says, with the caller as its owner.
pub fn instantiate(storage: &mut Storage, info: &MessageInfo, msg: InstantiateMsg) -> (r: Result<
    Response,
    StdError,
>)
    ensures
        r is Ok,
        r->Ok_0@ == ResponseView::empty(),
        final(storage)@ == instantiate_spec(
            old(storage)@,
            info@.sender,
            msg@.counter,
            msg@.minimal_donation,
            msg@.parent,
        ),
        old(storage)@.parent_donation is None ==> final(storage)@.well_formed(),
{
    contract::instantiate(storage, info, msg.counter, msg.minimal_donation, msg.parent)
}

/// Answers `msg` from the store.
pub fn query(storage: &Storage, msg: QueryMsg) -> (r: Result<ValueResp, StdError>)
    ensures
        match storage@.state {
            Some(state) => r is Ok && r->Ok_0.value == state.counter,
            None => r is Err && r->Err_0@ == not_found(STATE_KEY@),
        },
{
    match msg {
        QueryMsg::Value {  } => contract::query::value(storage),
    }
}

/// A failure of the store, of the host or of arithmetic, as a failure of the
/// call.
pub open spec fn std_failure<T>(r: Result<T, StdErrorView>) -> Result<T, ContractErrorView> {
    match r {
        Ok(t) => Ok(t),
        Err(e) => Err(ContractErrorView::Std(e)),
    }
}

/// What the call `msg` does: the store after it and the response, or the
/// failure.
pub open spec fn execute_spec(
    s: StorageView,
    balance: Result<Seq<CoinView>, StdErrorView>,
    info: MessageInfoView,
    msg: ExecMsg,
) -> Result<(StorageView, ResponseView), ContractErrorView> {
    match msg {
        ExecMsg::Donate {  } => std_failure(donate_spec(s, balance, info)),
        ExecMsg::Reset { counter } => reset_spec(s, info, counter as nat),
        ExecMsg::Withdraw {  } => match withdraw_spec(s, balance, info) {
            Ok(response) => Ok((s, response)),
            Err(e) => Err(e),
        },
    }
}

/// Carries out the call `msg`. `balance` is the host's answer to what the
/// contract holds at this call. With a failure nothing is written.
pub fn execute(
    storage: &mut Storage,
    balance: Result<Vec<Coin>, StdError>,
    info: &MessageInfo,
    msg: ExecMsg,
) -> (r: Result<Response, ContractError>)
    ensures
        match execute_spec(old(storage)@, balance_view(balance), info@, msg) {
            Ok((after, response)) => r is Ok && r->Ok_0@ == response && final(storage)@ == after,
            Err(e) => r is Err && r->Err_0@ == e && final(storage)@ == old(storage)@,
        },
        old(storage)@.well_formed() ==> final(storage)@.well_formed(),
{
    match msg {
        ExecMsg::Donate {  } => match contract::exec::donate(storage, balance, info) {
            Ok(response) => Ok(response),
            Err(e) => Err(ContractError::from(e)),
        },
        ExecMsg::Reset { counter } => contract::exec::reset(storage, info, counter),
        ExecMsg::Withdraw {  } => contract::exec::withdraw(storage, balance, info),
    }
}

/// Brings the store to the current layout from whichever version wrote it.
pub fn migrate(storage: &mut Storage) -> (r: Result<Response, ContractError>)
    ensures
        match migrate_spec(old(storage)@) {
            Ok(after) => r is Ok && r->Ok_0@ == ResponseView::empty() && final(storage)@ == after,
            Err(e) => r is Err && r->Err_0@ == e && final(storage)@ == old(storage)@,
        },
        old(storage)@.well_formed() && old(storage)@.parent_donation is None
            ==> final(storage)@.well_formed(),
{
    contract::migrate(storage)
}

} // verus!
