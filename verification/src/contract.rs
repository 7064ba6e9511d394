//! Setting the contract up and migrating its store.

use vstd::prelude::*;
use crate::addr::Addr;
use crate::coin::{Coin, CoinView};
use crate::error::{ContractError, ContractErrorView, StdError, StdErrorView};
use crate::host::MessageInfo;
use crate::msg::{Parent, ParentView};
use crate::response::{Response, ResponseView};
use crate::state::{
    get_contract_version, not_found, set_contract_version, ContractVersionView, ParentDonation,
    ParentDonationView, State, StateView, Storage, StorageView, CONTRACT_INFO_KEY,
    LEGACY_COUNTER_KEY, LEGACY_MINIMAL_DONATION_KEY, STATE_KEY,
};

pub mod exec;
pub mod query;

verus! {

/// The name by which this code knows itself in the store.
pub const CONTRACT_NAME: &'static str = "counting_contract";

/// The version of the layout that this code reads and writes.
pub const CONTRACT_VERSION: &'static str = "0.3.0";

/// The version whose layout kept the counter and the minimal donation as two
/// records.
pub const VERSION_0_1_0: &'static str = "0.1.0";

/// The version whose layout kept one state record without a parent.
pub const VERSION_0_2_0: &'static str = "0.2.0";

/// The mark that this code leaves in the store.
pub open spec fn current_version() -> ContractVersionView {
    ContractVersionView { contract: CONTRACT_NAME@, version: CONTRACT_VERSION@ }
}

/// The countdown that a parent starts with: its whole period.
pub open spec fn first_countdown(parent: Option<ParentView>) -> Option<nat> {
    match parent {
        Some(p) => Some(p.donating_period),
        None => None,
    }
}

/// The store after the contract was set up by `sender`. Without a parent the
/// record of the parent's configuration is left as it was.
pub open spec fn instantiate_spec(
    s: StorageView,
    sender: Seq<char>,
    counter: nat,
    minimal_donation: CoinView,
    parent: Option<ParentView>,
) -> StorageView {
    StorageView {
        contract_info: Some(current_version()),
        state: Some(StateView { counter, minimal_donation, donating_parent: first_countdown(parent) }),
        owner: Some(sender),
        parent_donation: match parent {
            Some(p) => Some(
                ParentDonationView {
                    address: p.addr,
                    donating_parent_period: p.donating_period,
                    part: p.part,
                },
            ),
            None => s.parent_donation,
        },
        ..s
    }
}

/// Sets the contract up: the caller becomes the owner, the counter starts at
/// `counter`, and with a parent the countdown starts at the parent's period.
///
/// The address of `parent` is stored as it is given: whoever calls has had
/// the host check it.
pub fn instantiate(
    storage: &mut Storage,
    info: &MessageInfo,
    counter: u64,
    minimal_donation: Coin,
    parent: Option<Parent>,
) -> (r: Result<Response, StdError>)
    ensures
        r is Ok,
        r->Ok_0@ == ResponseView::empty(),
        final(storage)@ == instantiate_spec(
            old(storage)@,
            info@.sender,
            counter as nat,
            minimal_donation@,
            parent.deep_view(),
        ),
        old(storage)@.parent_donation is None ==> final(storage)@.well_formed(),
{
    set_contract_version(storage, CONTRACT_NAME, CONTRACT_VERSION);
    let donating_parent = match &parent {
        Some(p) => Some(p.donating_period),
        None => None,
    };
    storage.save_state(State { counter, minimal_donation, donating_parent });
    storage.save_owner(info.sender.clone());
    if let Some(parent) = parent {
        storage.save_parent_donation(
            ParentDonation {
                address: Addr::unchecked(parent.addr.as_str()),
                donating_parent_period: parent.donating_period,
                part: parent.part,
            },
        );
    }
    Ok(Response::new())
}

/// The store after the two records of the first layout were put together
/// into a state without a parent, or the failure to find one of them.
pub open spec fn migrated_0_1_0(s: StorageView) -> Result<StorageView, StdErrorView> {
    match s.counter {
        None => Err(not_found(LEGACY_COUNTER_KEY@)),
        Some(counter) => match s.minimal_donation {
            None => Err(not_found(LEGACY_MINIMAL_DONATION_KEY@)),
            Some(minimal_donation) => Ok(
                StorageView {
                    state: Some(StateView { counter, minimal_donation, donating_parent: None }),
                    ..s
                },
            ),
        },
    }
}

/// Brings a store of the first layout to the current one.
pub fn migrate_0_1_0(storage: &mut Storage) -> (r: Result<Response, StdError>)
    ensures
        match migrated_0_1_0(old(storage)@) {
            Ok(after) => r is Ok && r->Ok_0@ == ResponseView::empty() && final(storage)@ == after,
            Err(e) => r is Err && r->Err_0@ == e && final(storage)@ == old(storage)@,
        },
{
    let counter = match storage.load_legacy_counter() {
        Ok(counter) => counter,
        Err(e) => {
            return Err(e);
        },
    };
    let minimal_donation = match storage.load_legacy_minimal_donation() {
        Ok(coin) => coin,
        Err(e) => {
            return Err(e);
        },
    };
    storage.save_state(State { counter, minimal_donation, donating_parent: None });
    Ok(Response::new())
}

/// The store after the state record of the second layout was written anew as a
/// state without a parent, or the failure to find it.
pub open spec fn migrated_0_2_0(s: StorageView) -> Result<StorageView, StdErrorView> {
    match s.state {
        None => Err(not_found(STATE_KEY@)),
        Some(state) => Ok(StorageView { state: Some(StateView { donating_parent: None, ..state }), ..s }),
    }
}

/// Brings a store of the second layout to the current one.
pub fn migrate_0_2_0(storage: &mut Storage) -> (r: Result<Response, StdError>)
    ensures
        match migrated_0_2_0(old(storage)@) {
            Ok(after) => r is Ok && r->Ok_0@ == ResponseView::empty() && final(storage)@ == after,
            Err(e) => r is Err && r->Err_0@ == e && final(storage)@ == old(storage)@,
        },
{
    let old_state = match storage.load_old_state() {
        Ok(old_state) => old_state,
        Err(e) => {
            return Err(e);
        },
    };
    storage.save_state(
        State {
            counter: old_state.counter,
            minimal_donation: old_state.minimal_donation,
            donating_parent: None,
        },
    );
    Ok(Response::new())
}

/// The three versions that a migration knows are three different texts.
pub proof fn lemma_versions_differ()
    ensures
        VERSION_0_1_0@ != VERSION_0_2_0@,
        VERSION_0_1_0@ != CONTRACT_VERSION@,
        VERSION_0_2_0@ != CONTRACT_VERSION@,
{
    reveal_strlit("0.1.0");
    reveal_strlit("0.2.0");
    reveal_strlit("0.3.0");
    assert(VERSION_0_1_0@[2] == '1');
    assert(VERSION_0_2_0@[2] == '2');
    assert(CONTRACT_VERSION@[2] == '3');
}

/// `s` with this code's mark on it.
pub open spec fn stamped(s: StorageView) -> StorageView {
    StorageView { contract_info: Some(current_version()), ..s }
}

/// What a migration does, going by the mark that the store carries: the
/// store after it, or the failure. A store that this code's own version
/// wrote is left as it is.
pub open spec fn migrate_spec(s: StorageView) -> Result<StorageView, ContractErrorView> {
    match s.contract_info {
        None => Err(ContractErrorView::Std(not_found(CONTRACT_INFO_KEY@))),
        Some(installed) => if installed.contract != CONTRACT_NAME@ {
            Err(ContractErrorView::InvalidName(installed.contract))
        } else if installed.version == VERSION_0_1_0@ {
            match migrated_0_1_0(s) {
                Ok(after) => Ok(stamped(after)),
                Err(e) => Err(ContractErrorView::Std(e)),
            }
        } else if installed.version == VERSION_0_2_0@ {
            match migrated_0_2_0(s) {
                Ok(after) => Ok(stamped(after)),
                Err(e) => Err(ContractErrorView::Std(e)),
            }
        } else if installed.version == CONTRACT_VERSION@ {
            Ok(s)
        } else {
            Err(ContractErrorView::InvalidVersion(installed.version))
        },
    }
}

/// Whether `text` reads `literal`.
fn reads(text: &String, literal: &str) -> (r: bool)
    ensures
        r == (text@ == literal@),
{
    let other = String::from_str(literal);
    *text == other
}

/// Brings the store to the current layout from whichever version wrote it.
/// With a failure nothing is written.
pub fn migrate(storage: &mut Storage) -> (r: Result<Response, ContractError>)
    ensures
        match migrate_spec(old(storage)@) {
            Ok(after) => r is Ok && r->Ok_0@ == ResponseView::empty() && final(storage)@ == after,
            Err(e) => r is Err && r->Err_0@ == e && final(storage)@ == old(storage)@,
        },
        old(storage)@.well_formed() && old(storage)@.parent_donation is None
            ==> final(storage)@.well_formed(),
        // From either old layout: a state without a parent that keeps the
        // counter and the minimal donation.
        r is Ok && old(storage)@.contract_info->0.version == VERSION_0_1_0@ ==> final(storage)@.state == Some(
            StateView {
                counter: old(storage)@.counter->0,
                minimal_donation: old(storage)@.minimal_donation->0,
                donating_parent: None,
            },
        ),
        r is Ok && old(storage)@.contract_info->0.version == VERSION_0_2_0@ ==> final(storage)@.state == Some(
            StateView {
                counter: old(storage)@.state->0.counter,
                minimal_donation: old(storage)@.state->0.minimal_donation,
                donating_parent: None,
            },
        ),
        // From the current version: nothing to do.
        old(storage)@.contract_info == Some(current_version())
            ==> r is Ok && final(storage)@ == old(storage)@,
        // From any other version of this code: no migration.
        old(storage)@.contract_info matches Some(installed) ==> (installed.contract == CONTRACT_NAME@
            && installed.version != VERSION_0_1_0@ && installed.version != VERSION_0_2_0@
            && installed.version != CONTRACT_VERSION@ ==> r is Err && r->Err_0@
            == ContractErrorView::InvalidVersion(installed.version)),
{
    proof {
        lemma_versions_differ();
    }
    let contract = match get_contract_version(storage) {
        Ok(contract) => contract,
        Err(e) => {
            return Err(ContractError::from(e));
        },
    };
    if !reads(&contract.contract, CONTRACT_NAME) {
        return Err(ContractError::InvalidName(contract.contract));
    }
    let migrated = if reads(&contract.version, VERSION_0_1_0) {
        migrate_0_1_0(storage)
    } else if reads(&contract.version, VERSION_0_2_0) {
        migrate_0_2_0(storage)
    } else if reads(&contract.version, CONTRACT_VERSION) {
        return Ok(Response::new());
    } else {
        return Err(ContractError::InvalidVersion(contract.version));
    };
    let resp = match migrated {
        Ok(resp) => resp,
        Err(e) => {
            return Err(ContractError::from(e));
        },
    };
    set_contract_version(storage, CONTRACT_NAME, CONTRACT_VERSION);
    Ok(resp)
}

} // verus!
