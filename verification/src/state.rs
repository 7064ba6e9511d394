//! The records of the contract and the store that holds them.

use vstd::prelude::*;
use crate::addr::Addr;
use crate::coin::{Coin, CoinView};
use crate::decimal::Decimal;
use crate::error::{StdError, StdErrorView};

verus! {

/// The key of the contract's state record.
pub const STATE_KEY: &'static str = "state";

/// The key of the owner record.
pub const OWNER_KEY: &'static str = "owner";

/// The key of the record that configures donations to the parent.
pub const PARENT_DONATION_KEY: &'static str = "parent_donation";

/// The key of the record that names the installed code and its version.
pub const CONTRACT_INFO_KEY: &'static str = "contract_info";

/// The key under which the first layout kept the counter.
pub const LEGACY_COUNTER_KEY: &'static str = "counter";

/// The key under which the first layout kept the minimal donation.
pub const LEGACY_MINIMAL_DONATION_KEY: &'static str = "minimal_donation";

/// The contract's primary record.
#[derive(Debug, PartialEq, Eq)]
pub struct State {
    /// How many donations have been counted.
    pub counter: u64,
    /// What a single attached coin has to reach for a donation to count; an
    /// amount of zero lets every donation count.
    pub minimal_donation: Coin,
    /// How many counted donations are left until the next one is forwarded;
    /// `None` where no parent is configured.
    pub donating_parent: Option<u64>,
}

/// What a `State` stands for.
pub struct StateView {
    pub counter: nat,
    pub minimal_donation: CoinView,
    pub donating_parent: Option<nat>,
}

/// A number that may be missing, as a view.
pub open spec fn number_view(number: Option<u64>) -> Option<nat> {
    match number {
        Some(n) => Some(n as nat),
        None => None,
    }
}

impl View for State {
    type V = StateView;

    open spec fn view(&self) -> StateView {
        StateView {
            counter: self.counter as nat,
            minimal_donation: self.minimal_donation@,
            donating_parent: number_view(self.donating_parent),
        }
    }
}

impl DeepView for State {
    type V = StateView;

    open spec fn deep_view(&self) -> StateView {
        self@
    }
}

impl Clone for State {
    fn clone(&self) -> (r: Self)
        ensures
            r == *self,
    {
        State {
            counter: self.counter,
            minimal_donation: self.minimal_donation.clone(),
            donating_parent: self.donating_parent,
        }
    }
}

impl State {
    /// This state with the counter set to `counter`.
    pub open spec fn with_counter(self, counter: u64) -> State {
        State { counter, ..self }
    }
}

/// The state record as the second layout kept it: without a parent.
#[derive(Debug, PartialEq, Eq)]
pub struct OldState {
    pub counter: u64,
    pub minimal_donation: Coin,
}

/// How donations are forwarded to the parent.
#[derive(Debug, PartialEq, Eq)]
pub struct ParentDonation {
    pub address: Addr,
    /// The remaining period starts again from this after each forwarding.
    pub donating_parent_period: u64,
    /// The fraction of each coin of the balance that is forwarded.
    pub part: Decimal,
}

/// What a `ParentDonation` stands for.
pub struct ParentDonationView {
    pub address: Seq<char>,
    pub donating_parent_period: nat,
    pub part: nat,
}

impl View for ParentDonation {
    type V = ParentDonationView;

    open spec fn view(&self) -> ParentDonationView {
        ParentDonationView {
            address: self.address@,
            donating_parent_period: self.donating_parent_period as nat,
            part: self.part@,
        }
    }
}

impl DeepView for ParentDonation {
    type V = ParentDonationView;

    open spec fn deep_view(&self) -> ParentDonationView {
        self@
    }
}

impl Clone for ParentDonation {
    fn clone(&self) -> (r: Self)
        ensures
            r == *self,
    {
        ParentDonation {
            address: self.address.clone(),
            donating_parent_period: self.donating_parent_period,
            part: self.part,
        }
    }
}

/// The name and the version of the code that last wrote the store.
#[derive(Debug, PartialEq, Eq)]
pub struct ContractVersion {
    pub contract: String,
    pub version: String,
}

/// What a `ContractVersion` stands for.
pub struct ContractVersionView {
    pub contract: Seq<char>,
    pub version: Seq<char>,
}

impl View for ContractVersion {
    type V = ContractVersionView;

    open spec fn view(&self) -> ContractVersionView {
        ContractVersionView { contract: self.contract@, version: self.version@ }
    }
}

impl DeepView for ContractVersion {
    type V = ContractVersionView;

    open spec fn deep_view(&self) -> ContractVersionView {
        self@
    }
}

impl Clone for ContractVersion {
    fn clone(&self) -> (r: Self)
        ensures
            r == *self,
    {
        ContractVersion { contract: self.contract.clone(), version: self.version.clone() }
    }
}

/// The records that the host keeps for one contract, each under its key. A
/// record is `None` until something is saved under its key.
#[derive(Debug, PartialEq, Eq)]
pub struct Storage {
    pub state: Option<State>,
    pub owner: Option<Addr>,
    pub parent_donation: Option<ParentDonation>,
    pub contract_info: Option<ContractVersion>,
    /// Written by the first layout only.
    pub counter: Option<u64>,
    /// Written by the first layout only.
    pub minimal_donation: Option<Coin>,
}

/// What a `Storage` stands for: each record, or `None` where there is none.
pub struct StorageView {
    pub state: Option<StateView>,
    pub owner: Option<Seq<char>>,
    pub parent_donation: Option<ParentDonationView>,
    pub contract_info: Option<ContractVersionView>,
    pub counter: Option<nat>,
    pub minimal_donation: Option<CoinView>,
}

impl View for Storage {
    type V = StorageView;

    open spec fn view(&self) -> StorageView {
        StorageView {
            state: self.state.deep_view(),
            owner: self.owner.deep_view(),
            parent_donation: self.parent_donation.deep_view(),
            contract_info: self.contract_info.deep_view(),
            counter: number_view(self.counter),
            minimal_donation: self.minimal_donation.deep_view(),
        }
    }
}

impl Clone for Storage {
    fn clone(&self) -> (r: Self)
        ensures
            r == *self,
    {
        Storage {
            state: match &self.state {
                Some(state) => Some(state.clone()),
                None => None,
            },
            owner: match &self.owner {
                Some(owner) => Some(owner.clone()),
                None => None,
            },
            parent_donation: match &self.parent_donation {
                Some(config) => Some(config.clone()),
                None => None,
            },
            contract_info: match &self.contract_info {
                Some(info) => Some(info.clone()),
                None => None,
            },
            counter: self.counter,
            minimal_donation: match &self.minimal_donation {
                Some(coin) => Some(coin.clone()),
                None => None,
            },
        }
    }
}

impl StorageView {
    /// The store in which nothing was saved yet.
    pub open spec fn empty() -> StorageView {
        StorageView {
            state: None,
            owner: None,
            parent_donation: None,
            contract_info: None,
            counter: None,
            minimal_donation: None,
        }
    }

    /// The parent's configuration is there exactly when the state counts
    /// down to a forwarding.
    pub open spec fn well_formed(self) -> bool {
        match self.state {
            Some(state) => state.donating_parent.is_some() == self.parent_donation.is_some(),
            None => self.parent_donation.is_none(),
        }
    }
}

/// The failure of a load from the key `key`, under which nothing was saved.
pub open spec fn not_found(key: Seq<char>) -> StdErrorView {
    StdErrorView::NotFound { kind: key }
}

impl Storage {
    /// The store in which nothing was saved yet.
    pub fn new() -> (r: Storage)
        ensures
            r@ == StorageView::empty(),
    {
        Storage {
            state: None,
            owner: None,
            parent_donation: None,
            contract_info: None,
            counter: None,
            minimal_donation: None,
        }
    }

    pub fn load_state(&self) -> (r: Result<State, StdError>)
        ensures
            match self.state {
                Some(state) => r == Ok::<State, StdError>(state),
                None => r is Err && r->Err_0@ == not_found(STATE_KEY@),
            },
    {
        match &self.state {
            Some(state) => Ok(state.clone()),
            None => Err(StdError::not_found(STATE_KEY)),
        }
    }

    pub fn save_state(&mut self, state: State)
        ensures
            *final(self) == (Storage { state: Some(state), ..*old(self) }),
    {
        self.state = Some(state);
    }

    /// Loads the state, gives it to `action`, and saves what `action` makes
    /// of it. Where nothing is stored, or `action` fails, nothing changes.
    pub fn update_state<F: FnOnce(State) -> Result<State, StdError>>(&mut self, action: F) -> (r: Result<
        State,
        StdError,
    >)
        requires
            old(self).state is Some ==> action.requires((old(self).state->0,)),
        ensures
            match old(self).state {
                Some(state) => {
                    &&& action.ensures((state,), r)
                    &&& match r {
                        Ok(updated) => *final(self) == (Storage { state: Some(updated), ..*old(self) }),
                        Err(_) => *final(self) == *old(self),
                    }
                },
                None => {
                    &&& r is Err
                    &&& r->Err_0@ == not_found(STATE_KEY@)
                    &&& *final(self) == *old(self)
                },
            },
    {
        match self.load_state() {
            Ok(input) => match action(input) {
                Ok(output) => {
                    self.save_state(output.clone());
                    Ok(output)
                },
                Err(e) => Err(e),
            },
            Err(e) => Err(e),
        }
    }

    pub fn load_owner(&self) -> (r: Result<Addr, StdError>)
        ensures
            match self.owner {
                Some(owner) => r == Ok::<Addr, StdError>(owner),
                None => r is Err && r->Err_0@ == not_found(OWNER_KEY@),
            },
    {
        match &self.owner {
            Some(owner) => Ok(owner.clone()),
            None => Err(StdError::not_found(OWNER_KEY)),
        }
    }

    pub fn save_owner(&mut self, owner: Addr)
        ensures
            *final(self) == (Storage { owner: Some(owner), ..*old(self) }),
    {
        self.owner = Some(owner);
    }

    pub fn load_parent_donation(&self) -> (r: Result<ParentDonation, StdError>)
        ensures
            match self.parent_donation {
                Some(config) => r == Ok::<ParentDonation, StdError>(config),
                None => r is Err && r->Err_0@ == not_found(PARENT_DONATION_KEY@),
            },
    {
        match &self.parent_donation {
            Some(config) => Ok(config.clone()),
            None => Err(StdError::not_found(PARENT_DONATION_KEY)),
        }
    }

    pub fn save_parent_donation(&mut self, config: ParentDonation)
        ensures
            *final(self) == (Storage { parent_donation: Some(config), ..*old(self) }),
    {
        self.parent_donation = Some(config);
    }

    /// The counter as the first layout kept it.
    pub fn load_legacy_counter(&self) -> (r: Result<u64, StdError>)
        ensures
            match self.counter {
                Some(counter) => r == Ok::<u64, StdError>(counter),
                None => r is Err && r->Err_0@ == not_found(LEGACY_COUNTER_KEY@),
            },
    {
        match self.counter {
            Some(counter) => Ok(counter),
            None => Err(StdError::not_found(LEGACY_COUNTER_KEY)),
        }
    }

    /// The minimal donation as the first layout kept it.
    pub fn load_legacy_minimal_donation(&self) -> (r: Result<Coin, StdError>)
        ensures
            match self.minimal_donation {
                Some(coin) => r == Ok::<Coin, StdError>(coin),
                None => r is Err && r->Err_0@ == not_found(LEGACY_MINIMAL_DONATION_KEY@),
            },
    {
        match &self.minimal_donation {
            Some(coin) => Ok(coin.clone()),
            None => Err(StdError::not_found(LEGACY_MINIMAL_DONATION_KEY)),
        }
    }

    /// The state record read as the second layout wrote it: whatever the
    /// record holds about a parent is left out.
    pub fn load_old_state(&self) -> (r: Result<OldState, StdError>)
        ensures
            match self.state {
                Some(state) => r == Ok::<OldState, StdError>(
                    OldState { counter: state.counter, minimal_donation: state.minimal_donation },
                ),
                None => r is Err && r->Err_0@ == not_found(STATE_KEY@),
            },
    {
        match &self.state {
            Some(state) => Ok(
                OldState { counter: state.counter, minimal_donation: state.minimal_donation.clone() },
            ),
            None => Err(StdError::not_found(STATE_KEY)),
        }
    }
}

/// The name and version of the code that last wrote `storage`.
pub fn get_contract_version(storage: &Storage) -> (r: Result<ContractVersion, StdError>)
    ensures
        match storage.contract_info {
            Some(info) => r == Ok::<ContractVersion, StdError>(info),
            None => r is Err && r->Err_0@ == not_found(CONTRACT_INFO_KEY@),
        },
{
    match &storage.contract_info {
        Some(info) => Ok(info.clone()),
        None => Err(StdError::not_found(CONTRACT_INFO_KEY)),
    }
}

/// Records that the code `contract`, in version `version`, wrote `storage`.
pub fn set_contract_version(storage: &mut Storage, contract: &str, version: &str)
    ensures
        final(storage)@ == (StorageView {
            contract_info: Some(ContractVersionView { contract: contract@, version: version@ }),
            ..old(storage)@
        }),
{
    storage.contract_info = Some(
        ContractVersion { contract: String::from_str(contract), version: String::from_str(version) },
    );
}

} // verus!
