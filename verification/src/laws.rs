//! What holds of the contract over all stores, callers and funds.

use vstd::prelude::*;
use crate::coin::CoinView;
use crate::contract::exec::{
    donate_spec, overflow, qualifies, reset_spec, scalable, scaled, withdraw_spec,
};
use crate::contract::{
    current_version, instantiate_spec, lemma_versions_differ, migrate_spec, CONTRACT_NAME,
    CONTRACT_VERSION, VERSION_0_1_0, VERSION_0_2_0,
};
use crate::decimal::{fractional, mul_floor};
use crate::error::{ContractErrorView, OverflowOperation, StdErrorView};
use crate::execute_spec;
use crate::host::MessageInfoView;
use crate::msg::{ExecMsg, ParentView};
use crate::response::{CosmosMsgView, ResponseView};
use crate::state::{
    not_found, ContractVersionView, StateView, StorageView, STATE_KEY,
};

verus! {

/// A fraction of at most one never scales an amount up: what rounding cuts
/// off stays where it was.
pub proof fn lemma_part_is_at_most_whole(amount: nat, part: nat)
    requires
        part <= fractional(),
    ensures
        mul_floor(amount, part) <= amount,
{
    assert(amount * part <= amount * fractional()) by (nonlinear_arith)
        requires
            part <= fractional(),
    ;
    assert((amount * part) / fractional() <= amount) by (nonlinear_arith)
        requires
            amount * part <= amount * fractional(),
            fractional() > 0,
    ;
}

/// A balance can always be scaled by a fraction of at most one.
pub proof fn lemma_fraction_scales_any_balance(balance: Seq<CoinView>, part: nat)
    requires
        part <= fractional(),
        forall|i: int| 0 <= i < balance.len() ==> (#[trigger] balance[i]).amount <= u128::MAX,
    ensures
        scalable(balance, part),
        forall|i: int| 0 <= i < balance.len() ==> (#[trigger] scaled(balance, part)[i]).amount <= balance[i].amount,
{
    assert forall|i: int| 0 <= i < balance.len() implies mul_floor((#[trigger] balance[i]).amount, part)
        <= balance[i].amount by {
        lemma_part_is_at_most_whole(balance[i].amount, part);
    }
}

/// A donation below the minimal donation succeeds, leaves the store as it
/// was, the counter with it, and asks the host for nothing.
pub proof fn lemma_small_donation_changes_nothing(
    s: StorageView,
    balance: Result<Seq<CoinView>, StdErrorView>,
    info: MessageInfoView,
)
    requires
        s.state matches Some(state) && !qualifies(state.minimal_donation, info.funds),
    ensures
        donate_spec(s, balance, info) matches Ok((after, response)) && after == s
            && response.messages.len() == 0,
{
}

/// A donation that reaches the minimal donation and succeeds counts once
/// and changes nothing but the state. Without a parent it asks the host for
/// nothing. With a parent, the countdown goes down by one and the host is
/// asked for nothing, unless this donation is the last of its period: then
/// the countdown starts again from the configured period and the host is
/// asked for one thing.
pub proof fn lemma_counted_donation(
    s: StorageView,
    balance: Result<Seq<CoinView>, StdErrorView>,
    info: MessageInfoView,
)
    requires
        s.state matches Some(state) && qualifies(state.minimal_donation, info.funds),
        donate_spec(s, balance, info) is Ok,
    ensures
        ({
            let state = s.state->0;
            let (after, response) = donate_spec(s, balance, info)->Ok_0;
            &&& after.state matches Some(next)
            &&& after == (StorageView { state: Some(next), ..s })
            &&& next.counter == state.counter + 1
            &&& next.minimal_donation == state.minimal_donation
            &&& match state.donating_parent {
                None => next.donating_parent is None && response.messages.len() == 0,
                Some(remaining) => if remaining == 1 {
                    &&& s.parent_donation matches Some(config)
                    &&& next.donating_parent == Some(config.donating_parent_period)
                    &&& response.messages.len() == 1
                } else {
                    &&& next.donating_parent == Some((remaining - 1) as nat)
                    &&& response.messages.len() == 0
                },
            }
        }),
{
}

/// A donation that reaches the minimal donation fails in these cases and no
/// others: the counter is at its largest value; the countdown is at zero;
/// the donation is the last of its period and the parent's configuration is
/// missing, or the host cannot tell the balance, or a scaled amount would be
/// more than an amount can hold.
pub proof fn lemma_counted_donation_fails_when(
    s: StorageView,
    balance: Result<Seq<CoinView>, StdErrorView>,
    info: MessageInfoView,
)
    requires
        s.state matches Some(state) && qualifies(state.minimal_donation, info.funds),
    ensures
        ({
            let state = s.state->0;
            donate_spec(s, balance, info) is Err <==> {
                ||| state.counter >= u64::MAX
                ||| state.donating_parent == Some(0nat)
                ||| state.donating_parent == Some(1nat) && {
                    ||| s.parent_donation is None
                    ||| balance is Err
                    ||| !scalable(balance->Ok_0, s.parent_donation->0.part)
                }
            }
        }),
{
}

/// One donation of a run: what the host reports at that call.
pub struct DonateCall {
    pub balance: Result<Seq<CoinView>, StdErrorView>,
    pub info: MessageInfoView,
}

/// The store after the donations `calls`, made one after the other, with the
/// response to each; or the first failure.
pub open spec fn donations(s: StorageView, calls: Seq<DonateCall>) -> Result<
    (StorageView, Seq<ResponseView>),
    StdErrorView,
>
    decreases calls.len(),
{
    if calls.len() == 0 {
        Ok((s, Seq::empty()))
    } else {
        match donations(s, calls.drop_last()) {
            Err(e) => Err(e),
            Ok((before, responses)) => match donate_spec(before, calls.last().balance, calls.last().info) {
                Err(e) => Err(e),
                Ok((after, response)) => Ok((after, responses.push(response))),
            },
        }
    }
}

/// How many of `calls` come with funds that reach `minimal`.
pub open spec fn counted_among(minimal: CoinView, calls: Seq<DonateCall>) -> nat
    decreases calls.len(),
{
    if calls.len() == 0 {
        0
    } else {
        counted_among(minimal, calls.drop_last()) + if qualifies(minimal, calls.last().info.funds) {
            1nat
        } else {
            0nat
        }
    }
}

/// While a period runs, donations only count down. Of `calls`, fewer reach
/// the minimal donation than the countdown has left. Then all of them
/// succeed, the counter has grown by the number of those that count, the
/// countdown has shrunk by it, and the host was asked for nothing.
pub proof fn lemma_countdown(s: StorageView, calls: Seq<DonateCall>)
    requires
        s.state matches Some(state) && state.donating_parent matches Some(remaining) && {
            &&& counted_among(state.minimal_donation, calls) < remaining
            &&& state.counter + counted_among(state.minimal_donation, calls) <= u64::MAX
        },
    ensures
        donations(s, calls) matches Ok((after, responses)) && {
            &&& responses.len() == calls.len()
            &&& forall|i: int| 0 <= i < responses.len() ==> (#[trigger] responses[i]).messages.len() == 0
            &&& after == (StorageView {
                state: Some(
                    StateView {
                        counter: s.state->0.counter + counted_among(s.state->0.minimal_donation, calls),
                        donating_parent: Some(
                            (s.state->0.donating_parent->0 - counted_among(
                                s.state->0.minimal_donation,
                                calls,
                            )) as nat,
                        ),
                        ..s.state->0
                    },
                ),
                ..s
            })
        },
    decreases calls.len(),
{
    if calls.len() > 0 {
        lemma_countdown(s, calls.drop_last());
    }
}

/// The forwarding falls due with exactly the last donation of a period.
/// The countdown stands at the whole period, as it does when the contract
/// is set up and after each forwarding. Of `calls`, as many reach the
/// minimal donation as the period is long, and the last call is one of
/// them. Then all but the last ask the host for nothing; the last asks for
/// one thing, a donation to the parent that carries each coin of the balance
/// scaled by the configured part and rounded down; the counter has grown by
/// the period, and the countdown stands at the whole period again.
pub proof fn lemma_forwarding_cycle(s: StorageView, calls: Seq<DonateCall>)
    requires
        s.state matches Some(state) && s.parent_donation matches Some(config) && {
            &&& config.donating_parent_period >= 1
            &&& state.donating_parent == Some(config.donating_parent_period)
            &&& calls.len() > 0
            &&& qualifies(state.minimal_donation, calls.last().info.funds)
            &&& counted_among(state.minimal_donation, calls) == config.donating_parent_period
            &&& state.counter + config.donating_parent_period <= u64::MAX
            &&& calls.last().balance matches Ok(held) && scalable(held, config.part)
        },
    ensures
        donations(s, calls) matches Ok((after, responses)) && {
            &&& responses.len() == calls.len()
            &&& forall|i: int| 0 <= i < responses.len() - 1 ==> (#[trigger] responses[i]).messages.len() == 0
            &&& responses.last().messages == seq![
                CosmosMsgView::Execute {
                    contract_addr: s.parent_donation->0.address,
                    msg: ExecMsg::Donate {  },
                    funds: scaled(calls.last().balance->Ok_0, s.parent_donation->0.part),
                },
            ]
            &&& after == (StorageView {
                state: Some(
                    StateView {
                        counter: s.state->0.counter + s.parent_donation->0.donating_parent_period,
                        ..s.state->0
                    },
                ),
                ..s
            })
        },
{
    lemma_countdown(s, calls.drop_last());
    let responses = donations(s, calls)->Ok_0.1;
    assert(responses.last().messages =~= seq![
        CosmosMsgView::Execute {
            contract_addr: s.parent_donation->0.address,
            msg: ExecMsg::Donate {  },
            funds: scaled(calls.last().balance->Ok_0, s.parent_donation->0.part),
        },
    ]);
}

/// Whoever is not the stored owner can neither reset the counter nor
/// withdraw: both calls fail and name the owner.
pub proof fn lemma_only_owner_administers(
    s: StorageView,
    balance: Result<Seq<CoinView>, StdErrorView>,
    info: MessageInfoView,
    counter: u64,
)
    requires
        s.owner matches Some(owner) && info.sender != owner,
    ensures
        reset_spec(s, info, counter as nat) == Err::<(StorageView, ResponseView), ContractErrorView>(
            ContractErrorView::Unauthorized { owner: s.owner->0 },
        ),
        withdraw_spec(s, balance, info) == Err::<ResponseView, ContractErrorView>(
            ContractErrorView::Unauthorized { owner: s.owner->0 },
        ),
        execute_spec(s, balance, info, ExecMsg::Reset { counter }) == Err::<
            (StorageView, ResponseView),
            ContractErrorView,
        >(ContractErrorView::Unauthorized { owner: s.owner->0 }),
        execute_spec(s, balance, info, ExecMsg::Withdraw {  }) == Err::<
            (StorageView, ResponseView),
            ContractErrorView,
        >(ContractErrorView::Unauthorized { owner: s.owner->0 }),
{
}

/// The owner's withdrawal asks the host for one thing: to send the caller
/// everything the contract holds.
pub proof fn lemma_owner_withdraws_all(s: StorageView, held: Seq<CoinView>, info: MessageInfoView)
    requires
        s.owner == Some(info.sender),
    ensures
        withdraw_spec(s, Ok(held), info) matches Ok(response) && response.messages == seq![
            CosmosMsgView::Send { to_address: info.sender, amount: held },
        ],
{
    let response = withdraw_spec(s, Ok(held), info)->Ok_0;
    assert(response.messages =~= seq![CosmosMsgView::Send { to_address: info.sender, amount: held }]);
}

/// A store that the first layout wrote migrates to a state without a parent
/// that has the counter and the minimal donation of the two old records.
pub proof fn lemma_migration_from_first_layout(s: StorageView, counter: nat, minimal_donation: CoinView)
    requires
        s.contract_info == Some(ContractVersionView { contract: CONTRACT_NAME@, version: VERSION_0_1_0@ }),
        s.counter == Some(counter),
        s.minimal_donation == Some(minimal_donation),
    ensures
        migrate_spec(s) == Ok::<StorageView, ContractErrorView>(
            StorageView {
                state: Some(StateView { counter, minimal_donation, donating_parent: None }),
                contract_info: Some(current_version()),
                ..s
            },
        ),
{
}

/// A store that the second layout wrote migrates to a state without a
/// parent that has the counter and the minimal donation of the old record.
pub proof fn lemma_migration_from_second_layout(s: StorageView, state: StateView)
    requires
        s.contract_info == Some(ContractVersionView { contract: CONTRACT_NAME@, version: VERSION_0_2_0@ }),
        s.state == Some(state),
    ensures
        migrate_spec(s) == Ok::<StorageView, ContractErrorView>(
            StorageView {
                state: Some(
                    StateView {
                        counter: state.counter,
                        minimal_donation: state.minimal_donation,
                        donating_parent: None,
                    },
                ),
                contract_info: Some(current_version()),
                ..s
            },
        ),
{
    lemma_versions_differ();
}

/// Migrating a store that the current version wrote changes nothing, so
/// migrating twice is migrating once.
pub proof fn lemma_migration_from_current_version(s: StorageView)
    requires
        s.contract_info == Some(current_version()),
    ensures
        migrate_spec(s) == Ok::<StorageView, ContractErrorView>(s),
{
    lemma_versions_differ();
}

/// Whatever a migration succeeds on, it leaves a store on which a second
/// migration changes nothing.
pub proof fn lemma_migration_is_idempotent(s: StorageView)
    requires
        migrate_spec(s) is Ok,
    ensures
        migrate_spec(migrate_spec(s)->Ok_0) == migrate_spec(s),
{
    lemma_versions_differ();
}

/// A migration that succeeds leaves this code's mark and writes nothing but
/// the mark and the state: the owner, the parent's configuration and the
/// records of the first layout stay as they were.
pub proof fn lemma_migration_writes_state_and_mark(s: StorageView)
    requires
        migrate_spec(s) is Ok,
    ensures
        ({
            let after = migrate_spec(s)->Ok_0;
            &&& after.contract_info == Some(current_version())
            &&& after == (StorageView { state: after.state, contract_info: after.contract_info, ..s })
        }),
{
}

/// From a version that is none of the three known ones there is no
/// migration: the call fails and names the version.
pub proof fn lemma_migration_from_unknown_version(s: StorageView, version: Seq<char>)
    requires
        s.contract_info == Some(ContractVersionView { contract: CONTRACT_NAME@, version }),
        version != VERSION_0_1_0@,
        version != VERSION_0_2_0@,
        version != CONTRACT_VERSION@,
    ensures
        migrate_spec(s) == Err::<StorageView, ContractErrorView>(ContractErrorView::InvalidVersion(version)),
{
}

/// Code of another name is not migrated: the call fails and names it.
pub proof fn lemma_migration_of_other_code(s: StorageView, installed: ContractVersionView)
    requires
        s.contract_info == Some(installed),
        installed.contract != CONTRACT_NAME@,
    ensures
        migrate_spec(s) == Err::<StorageView, ContractErrorView>(
            ContractErrorView::InvalidName(installed.contract),
        ),
{
}

/// The countdown and the parent's configuration fit together: the countdown
/// is between one and the configured period.
pub open spec fn on_schedule(s: StorageView) -> bool {
    s.state matches Some(state) ==> (state.donating_parent matches Some(remaining) ==> s.parent_donation matches Some(
        config,
    ) && 1 <= remaining <= config.donating_parent_period)
}

/// Setting the contract up in an empty store gives a well-formed store, and
/// one that is on schedule unless the parent's period is zero.
pub proof fn lemma_instantiate_establishes(
    sender: Seq<char>,
    counter: nat,
    minimal_donation: CoinView,
    parent: Option<ParentView>,
)
    ensures
        ({
            let after = instantiate_spec(StorageView::empty(), sender, counter, minimal_donation, parent);
            &&& after.well_formed()
            &&& after.state matches Some(state) && state.counter == counter
            &&& after.owner == Some(sender)
            &&& on_schedule(after) <==> !(parent matches Some(p) && p.donating_period == 0)
        }),
{
}

/// Every call keeps a well-formed store well-formed and a store that is on
/// schedule on schedule.
pub proof fn lemma_calls_keep_invariants(
    s: StorageView,
    balance: Result<Seq<CoinView>, StdErrorView>,
    info: MessageInfoView,
    msg: ExecMsg,
)
    requires
        execute_spec(s, balance, info, msg) is Ok,
    ensures
        s.well_formed() ==> execute_spec(s, balance, info, msg)->Ok_0.0.well_formed(),
        on_schedule(s) ==> on_schedule(execute_spec(s, balance, info, msg)->Ok_0.0),
        execute_spec(s, balance, info, msg)->Ok_0.0.owner == s.owner,
        execute_spec(s, balance, info, msg)->Ok_0.0.parent_donation == s.parent_donation,
{
}

/// On a store that is on schedule a donation fails only for one of these:
/// there is no state, the counter is at its largest value, the host cannot
/// tell the balance, or a scaled amount would be more than an amount can
/// hold. It never fails for want of the parent's configuration, nor because
/// the countdown ran out.
pub proof fn lemma_schedule_never_runs_out(
    s: StorageView,
    balance: Result<Seq<CoinView>, StdErrorView>,
    info: MessageInfoView,
)
    requires
        on_schedule(s),
    ensures
        donate_spec(s, balance, info) matches Err(e) ==> {
            ||| s.state is None && e == not_found(STATE_KEY@)
            ||| e == overflow(OverflowOperation::Add)
            ||| balance == Err::<Seq<CoinView>, StdErrorView>(e)
            ||| e == overflow(OverflowOperation::Mul)
        },
{
}

/// Only a reset can make the counter smaller.
pub proof fn lemma_counter_only_grows(
    s: StorageView,
    balance: Result<Seq<CoinView>, StdErrorView>,
    info: MessageInfoView,
    msg: ExecMsg,
)
    requires
        s.state is Some,
        execute_spec(s, balance, info, msg) is Ok,
        !(msg is Reset),
    ensures
        execute_spec(s, balance, info, msg)->Ok_0.0.state matches Some(next) && next.counter
            >= s.state->0.counter,
{
}

} // verus!
