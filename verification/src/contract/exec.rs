//! The calls that change the contract: donating, resetting, withdrawing.

use vstd::prelude::*;
use crate::coin::{Coin, CoinView};
use crate::decimal::{checked_mul_floor, mul_floor, Decimal};
use crate::addr::Addr;
use crate::error::{ContractError, ContractErrorView, OverflowOperation, StdError, StdErrorView};
use crate::host::{balance_view, MessageInfo, MessageInfoView};
use crate::msg::ExecMsg;
use crate::response::{CosmosMsg, CosmosMsgView, Response, ResponseView};
use crate::state::{
    not_found, State, StateView, Storage, StorageView, OWNER_KEY, PARENT_DONATION_KEY, STATE_KEY,
};
use crate::text::{decimal, u64_to_string};

verus! {

/// Whether `coin` is of the denomination of `minimal` and at least as much.
pub open spec fn reaches(coin: CoinView, minimal: CoinView) -> bool {
    coin.denom == minimal.denom && coin.amount >= minimal.amount
}

/// Whether a donation that comes with `funds` counts: a minimal amount of
/// zero lets every donation count; otherwise one of the coins has to reach
/// the minimal donation by itself.
pub open spec fn qualifies(minimal: CoinView, funds: Seq<CoinView>) -> bool {
    minimal.amount == 0 || exists|i: int| 0 <= i < funds.len() && reaches(#[trigger] funds[i], minimal)
}

/// Each coin of `balance` scaled by `part`, rounded towards zero.
pub open spec fn scaled(balance: Seq<CoinView>, part: nat) -> Seq<CoinView> {
    Seq::new(
        balance.len(),
        |i: int| CoinView { denom: balance[i].denom, amount: mul_floor(balance[i].amount, part) },
    )
}

/// Whether each coin of `balance`, scaled by `part`, is still an amount.
pub open spec fn scalable(balance: Seq<CoinView>, part: nat) -> bool {
    forall|i: int| 0 <= i < balance.len() ==> mul_floor((#[trigger] balance[i]).amount, part) <= u128::MAX
}

/// The failure of the arithmetic step `operation`.
pub open spec fn overflow(operation: OverflowOperation) -> StdErrorView {
    StdErrorView::Overflow { operation }
}

/// The three attributes that every donation reports, added to `response`.
pub open spec fn donate_attributes(response: ResponseView, sender: Seq<char>, counter: nat) -> ResponseView {
    response.add_attribute("action"@, "donate"@).add_attribute("sender"@, sender).add_attribute(
        "counter"@,
        decimal(counter),
    )
}

/// The forwarding that falls due: the period from which the countdown
/// starts again, and the response that asks the host to donate the scaled
/// balance to the parent.
pub open spec fn forward_spec(s: StorageView, balance: Result<Seq<CoinView>, StdErrorView>) -> Result<
    (nat, ResponseView),
    StdErrorView,
> {
    match s.parent_donation {
        None => Err(not_found(PARENT_DONATION_KEY@)),
        Some(config) => match balance {
            Err(e) => Err(e),
            Ok(coins) => if !scalable(coins, config.part) {
                Err(overflow(OverflowOperation::Mul))
            } else {
                Ok(
                    (
                        config.donating_parent_period,
                        ResponseView::empty().add_message(
                            CosmosMsgView::Execute {
                                contract_addr: config.address,
                                msg: ExecMsg::Donate {  },
                                funds: scaled(coins, config.part),
                            },
                        ).add_attribute("donated_to_parent"@, config.address),
                    ),
                )
            },
        },
    }
}

/// The outcome of a donation that counts and leaves `remaining` until the
/// next forwarding, with `response` gathered so far.
pub open spec fn counted(
    s: StorageView,
    state: StateView,
    remaining: Option<nat>,
    response: ResponseView,
    sender: Seq<char>,
) -> (StorageView, ResponseView) {
    (
        StorageView {
            state: Some(StateView { counter: state.counter + 1, donating_parent: remaining, ..state }),
            ..s
        },
        donate_attributes(response, sender, state.counter + 1),
    )
}

/// What a donation does: the store after it and the response, or the
/// failure. `balance` is what the host answers when asked what the contract
/// holds; it is looked at only when a forwarding falls due.
pub open spec fn donate_spec(
    s: StorageView,
    balance: Result<Seq<CoinView>, StdErrorView>,
    info: MessageInfoView,
) -> Result<(StorageView, ResponseView), StdErrorView> {
    match s.state {
        None => Err(not_found(STATE_KEY@)),
        Some(state) => if !qualifies(state.minimal_donation, info.funds) {
            Ok((s, donate_attributes(ResponseView::empty(), info.sender, state.counter)))
        } else if state.counter >= u64::MAX {
            Err(overflow(OverflowOperation::Add))
        } else {
            match state.donating_parent {
                None => Ok(counted(s, state, None, ResponseView::empty(), info.sender)),
                Some(remaining) => if remaining == 0 {
                    Err(overflow(OverflowOperation::Sub))
                } else if remaining > 1 {
                    Ok(counted(s, state, Some((remaining - 1) as nat), ResponseView::empty(), info.sender))
                } else {
                    match forward_spec(s, balance) {
                        Err(e) => Err(e),
                        Ok((period, response)) => Ok(counted(s, state, Some(period), response, info.sender)),
                    }
                },
            }
        },
    }
}

/// Whether one of `funds` reaches `minimal`, or `minimal` asks for nothing.
pub fn counts(minimal: &Coin, funds: &Vec<Coin>) -> (r: bool)
    ensures
        r == qualifies(minimal@, funds.deep_view()),
{
    if minimal.amount == 0 {
        return true;
    }
    let mut i: usize = 0;
    while i < funds.len()
        invariant
            i <= funds.len(),
            forall|j: int| 0 <= j < i ==> !reaches(#[trigger] funds.deep_view()[j], minimal@),
        decreases funds.len() - i,
    {
        if funds[i].denom == minimal.denom && funds[i].amount >= minimal.amount {
            assert(reaches(funds.deep_view()[i as int], minimal@));
            return true;
        }
        i += 1;
    }
    false
}

/// Scales each coin of `balance` by `part`, rounding towards zero. Fails
/// where one of the scaled amounts would be more than an amount can hold.
pub fn scale_coins(balance: Vec<Coin>, part: Decimal) -> (r: Result<Vec<Coin>, StdError>)
    ensures
        match r {
            Ok(coins) => scalable(balance.deep_view(), part@) && coins.deep_view() == scaled(
                balance.deep_view(),
                part@,
            ),
            Err(e) => !scalable(balance.deep_view(), part@) && e@ == overflow(OverflowOperation::Mul),
        },
{
    let mut coins: Vec<Coin> = Vec::new();
    let mut i: usize = 0;
    while i < balance.len()
        invariant
            i <= balance.len(),
            coins.len() == i,
            forall|j: int|
                0 <= j < i ==> mul_floor((#[trigger] balance.deep_view()[j]).amount, part@) <= u128::MAX,
            coins.deep_view() == scaled(balance.deep_view(), part@).subrange(0, i as int),
        decreases balance.len() - i,
    {
        match checked_mul_floor(balance[i].amount, part) {
            Some(amount) => {
                let ghost before = coins.deep_view();
                coins.push(Coin { denom: balance[i].denom.clone(), amount });
                assert(coins.deep_view() =~= before.push(scaled(balance.deep_view(), part@)[i as int]));
                assert(coins.deep_view() =~= scaled(balance.deep_view(), part@).subrange(0, i + 1));
            },
            None => {
                assert(mul_floor(balance.deep_view()[i as int].amount, part@) > u128::MAX);
                return Err(StdError::overflow(OverflowOperation::Mul));
            },
        }
        i += 1;
    }
    assert(coins.deep_view() =~= scaled(balance.deep_view(), part@));
    Ok(coins)
}

/// Counts a donation, if the attached funds reach the minimal donation, and
/// forwards part of the balance to the parent when that falls due.
///
/// `balance` is the host's answer to what the contract holds at this call.
/// With a failure nothing is written.
pub fn donate(storage: &mut Storage, balance: Result<Vec<Coin>, StdError>, info: &MessageInfo) -> (r: Result<
    Response,
    StdError,
>)
    ensures
        match donate_spec(old(storage)@, balance_view(balance), info@) {
            Ok((after, response)) => r is Ok && r->Ok_0@ == response && final(storage)@ == after,
            Err(e) => r is Err && r->Err_0@ == e && final(storage)@ == old(storage)@,
        },
        old(storage)@.well_formed() ==> final(storage)@.well_formed(),
        // Below the minimal donation the call succeeds, changes nothing and
        // asks the host for nothing.
        old(storage)@.state matches Some(state) ==> (!qualifies(state.minimal_donation, info@.funds) ==> {
            &&& r is Ok
            &&& final(storage)@ == old(storage)@
            &&& r->Ok_0@.messages.len() == 0
        }),
        // A donation that counts, counts once; the countdown goes down by
        // one, or starts again from the configured period.
        old(storage)@.state matches Some(state) ==> (qualifies(state.minimal_donation, info@.funds) && r is Ok
            ==> {
            &&& final(storage)@.state matches Some(next)
            &&& next.counter == state.counter + 1
            &&& state.donating_parent is None ==> next.donating_parent is None
            &&& state.donating_parent matches Some(remaining) ==> next.donating_parent == if remaining == 1 {
                Some(old(storage)@.parent_donation->0.donating_parent_period)
            } else {
                Some((remaining - 1) as nat)
            }
        }),
{
    let mut state = match storage.load_state() {
        Ok(state) => state,
        Err(e) => {
            return Err(e);
        },
    };
    let mut resp = Response::new();
    if counts(&state.minimal_donation, &info.funds) {
        if state.counter == u64::MAX {
            return Err(StdError::overflow(OverflowOperation::Add));
        }
        state.counter += 1;
        if let Some(remaining) = state.donating_parent {
            if remaining == 0 {
                return Err(StdError::overflow(OverflowOperation::Sub));
            }
            let left: u64 = remaining - 1;
            if left == 0 {
                let config = match storage.load_parent_donation() {
                    Ok(config) => config,
                    Err(e) => {
                        return Err(e);
                    },
                };
                state.donating_parent = Some(config.donating_parent_period);
                let held = match balance {
                    Ok(held) => held,
                    Err(e) => {
                        return Err(e);
                    },
                };
                let funds = match scale_coins(held, config.part) {
                    Ok(funds) => funds,
                    Err(e) => {
                        return Err(e);
                    },
                };
                let msg = CosmosMsg::Execute {
                    contract_addr: config.address.to_string(),
                    msg: ExecMsg::Donate {  },
                    funds,
                };
                resp = resp.add_message(msg).add_attribute("donated_to_parent", config.address.as_str());
            } else {
                state.donating_parent = Some(left);
            }
        }
        storage.save_state(state.clone());
    }
    let counter = u64_to_string(state.counter);
    resp = resp.add_attribute("action", "donate").add_attribute("sender", info.sender.as_str()).add_attribute(
        "counter",
        counter.as_str(),
    );
    Ok(resp)
}

/// What the owner check says of `caller`: nothing where `caller` is the
/// stored owner, else the failure.
pub open spec fn require_owner_spec(s: StorageView, caller: Seq<char>) -> Result<(), ContractErrorView> {
    match s.owner {
        None => Err(ContractErrorView::Std(not_found(OWNER_KEY@))),
        Some(owner) => if caller == owner {
            Ok(())
        } else {
            Err(ContractErrorView::Unauthorized { owner })
        },
    }
}

/// Lets only the stored owner pass.
pub fn require_owner(storage: &Storage, caller: &Addr) -> (r: Result<(), ContractError>)
    ensures
        match require_owner_spec(storage@, caller@) {
            Ok(_) => r is Ok,
            Err(e) => r is Err && r->Err_0@ == e,
        },
{
    let owner = match storage.load_owner() {
        Ok(owner) => owner,
        Err(e) => {
            return Err(ContractError::from(e));
        },
    };
    if !caller.same(&owner) {
        return Err(ContractError::Unauthorized { owner: owner.to_string() });
    }
    Ok(())
}

/// What a reset to `counter` does: the store after it and the response, or
/// the failure.
pub open spec fn reset_spec(s: StorageView, info: MessageInfoView, counter: nat) -> Result<
    (StorageView, ResponseView),
    ContractErrorView,
> {
    match require_owner_spec(s, info.sender) {
        Err(e) => Err(e),
        Ok(_) => match s.state {
            None => Err(ContractErrorView::Std(not_found(STATE_KEY@))),
            Some(state) => Ok(
                (
                    StorageView { state: Some(StateView { counter, ..state }), ..s },
                    ResponseView::empty().add_attribute("action"@, "reset"@).add_attribute(
                        "sender"@,
                        info.sender,
                    ).add_attribute("counter"@, decimal(counter)),
                ),
            ),
        },
    }
}

/// Sets the counter to `counter`, for the owner only. Nothing else in the
/// store changes, and with a failure nothing does.
pub fn reset(storage: &mut Storage, info: &MessageInfo, counter: u64) -> (r: Result<Response, ContractError>)
    ensures
        match reset_spec(old(storage)@, info@, counter as nat) {
            Ok((after, response)) => r is Ok && r->Ok_0@ == response && final(storage)@ == after,
            Err(e) => r is Err && r->Err_0@ == e && final(storage)@ == old(storage)@,
        },
        old(storage)@.well_formed() ==> final(storage)@.well_formed(),
        old(storage)@.owner matches Some(owner) ==> (owner != info@.sender ==> r is Err && r->Err_0@
            == (ContractErrorView::Unauthorized { owner })),
{
    match require_owner(storage, &info.sender) {
        Ok(_) => {},
        Err(e) => {
            return Err(e);
        },
    }
    let updated = storage.update_state(
        |state: State| -> (r: Result<State, StdError>)
            ensures
                r == Ok::<State, StdError>(state.with_counter(counter))
            {
                let mut state = state;
                state.counter = counter;
                Ok(state)
            },
    );
    match updated {
        Ok(_) => {},
        Err(e) => {
            return Err(ContractError::from(e));
        },
    }
    let text = u64_to_string(counter);
    let resp = Response::new().add_attribute("action", "reset").add_attribute(
        "sender",
        info.sender.as_str(),
    ).add_attribute("counter", text.as_str());
    Ok(resp)
}

/// What a withdrawal does: the response that asks the host to send all of
/// `balance` to the caller, or the failure.
pub open spec fn withdraw_spec(
    s: StorageView,
    balance: Result<Seq<CoinView>, StdErrorView>,
    info: MessageInfoView,
) -> Result<ResponseView, ContractErrorView> {
    match require_owner_spec(s, info.sender) {
        Err(e) => Err(e),
        Ok(_) => match balance {
            Err(e) => Err(ContractErrorView::Std(e)),
            Ok(coins) => Ok(
                ResponseView::empty().add_message(
                    CosmosMsgView::Send { to_address: info.sender, amount: coins },
                ).add_attribute("action"@, "withdraw"@).add_attribute("sender"@, info.sender),
            ),
        },
    }
}

/// Asks the host to send everything the contract holds to the caller, who
/// has to be the owner. `balance` is the host's answer to what the contract
/// holds at this call. The store is only read.
pub fn withdraw(storage: &Storage, balance: Result<Vec<Coin>, StdError>, info: &MessageInfo) -> (r: Result<
    Response,
    ContractError,
>)
    ensures
        match withdraw_spec(storage@, balance_view(balance), info@) {
            Ok(response) => r is Ok && r->Ok_0@ == response,
            Err(e) => r is Err && r->Err_0@ == e,
        },
        storage@.owner matches Some(owner) ==> (owner != info@.sender ==> r is Err && r->Err_0@
            == (ContractErrorView::Unauthorized { owner })),
{
    match require_owner(storage, &info.sender) {
        Ok(_) => {},
        Err(e) => {
            return Err(e);
        },
    }
    let held = match balance {
        Ok(held) => held,
        Err(e) => {
            return Err(ContractError::from(e));
        },
    };
    let bank_msg = CosmosMsg::Send { to_address: info.sender.to_string(), amount: held };
    let resp = Response::new().add_message(bank_msg).add_attribute("action", "withdraw").add_attribute(
        "sender",
        info.sender.as_str(),
    );
    Ok(resp)
}

} // verus!
