//! What the host supplies with a call.

use vstd::prelude::*;
use crate::addr::Addr;
use crate::coin::{Coin, CoinView};
use crate::error::{StdError, StdErrorView};

verus! {

/// What the host tells about the call at hand: who makes it, and the coins
/// that come with it.
#[derive(Debug, PartialEq, Eq)]
pub struct MessageInfo {
    pub sender: Addr,
    pub funds: Vec<Coin>,
}

/// What a `MessageInfo` stands for.
pub struct MessageInfoView {
    pub sender: Seq<char>,
    pub funds: Seq<CoinView>,
}

impl View for MessageInfo {
    type V = MessageInfoView;

    open spec fn view(&self) -> MessageInfoView {
        MessageInfoView { sender: self.sender@, funds: self.funds.deep_view() }
    }
}

/// The host's answer to the question what the contract holds: the coins, or
/// the host's failure to tell.
pub open spec fn balance_view(balance: Result<Vec<Coin>, StdError>) -> Result<Seq<CoinView>, StdErrorView> {
    match balance {
        Ok(coins) => Ok(coins.deep_view()),
        Err(e) => Err(e@),
    }
}

} // verus!
