//! The messages that the contract takes and answers.

use vstd::prelude::*;
use crate::coin::{Coin, CoinView};
use crate::decimal::Decimal;

verus! {

/// The parent contract to which part of the balance goes every
/// `donating_period` counted donations.
#[derive(Debug, PartialEq, Eq)]
pub struct Parent {
    /// The parent's address as the message spells it.
    pub addr: String,
    pub donating_period: u64,
    pub part: Decimal,
}

/// What a `Parent` stands for.
pub struct ParentView {
    pub addr: Seq<char>,
    pub donating_period: nat,
    pub part: nat,
}

impl View for Parent {
    type V = ParentView;

    open spec fn view(&self) -> ParentView {
        ParentView {
            addr: self.addr@,
            donating_period: self.donating_period as nat,
            part: self.part@,
        }
    }
}

impl DeepView for Parent {
    type V = ParentView;

    open spec fn deep_view(&self) -> ParentView {
        self@
    }
}

impl Clone for Parent {
    fn clone(&self) -> (r: Self)
        ensures
            r == *self,
    {
        Parent { addr: self.addr.clone(), donating_period: self.donating_period, part: self.part }
    }
}

/// What sets the contract up.
#[derive(Debug, PartialEq, Eq)]
pub struct InstantiateMsg {
    pub counter: u64,
    pub minimal_donation: Coin,
    pub parent: Option<Parent>,
}

/// What an `InstantiateMsg` stands for.
pub struct InstantiateMsgView {
    pub counter: nat,
    pub minimal_donation: CoinView,
    pub parent: Option<ParentView>,
}

impl View for InstantiateMsg {
    type V = InstantiateMsgView;

    open spec fn view(&self) -> InstantiateMsgView {
        InstantiateMsgView {
            counter: self.counter as nat,
            minimal_donation: self.minimal_donation@,
            parent: self.parent.deep_view(),
        }
    }
}

impl Clone for InstantiateMsg {
    fn clone(&self) -> (r: Self)
        ensures
            r == *self,
    {
        let parent = match &self.parent {
            Some(p) => Some(p.clone()),
            None => None,
        };
        InstantiateMsg { counter: self.counter, minimal_donation: self.minimal_donation.clone(), parent }
    }
}

/// What can be asked of the contract.
#[derive(Clone, Copy, Debug, PartialEq, Eq, Structural)]
pub enum QueryMsg {
    Value {},
}

/// The answer to `QueryMsg::Value`: the counter.
#[derive(Clone, Copy, Debug, PartialEq, Eq, Structural)]
pub struct ValueResp {
    pub value: u64,
}

/// The calls that change the contract or make it ask the host for something.
#[derive(Clone, Copy, Debug, PartialEq, Eq, Structural)]
pub enum ExecMsg {
    Donate {},
    Reset { counter: u64 },
    Withdraw {},
}

} // verus!
