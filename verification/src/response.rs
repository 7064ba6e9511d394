//! What a call hands back to the host.

use vstd::prelude::*;
use crate::coin::{Coin, CoinView};
use crate::msg::ExecMsg;

verus! {

/// A key and a value that describe what a call did, for whoever observes it.
#[derive(Debug, PartialEq, Eq)]
pub struct Attribute {
    pub key: String,
    pub value: String,
}

/// What an `Attribute` stands for.
pub struct AttributeView {
    pub key: Seq<char>,
    pub value: Seq<char>,
}

impl View for Attribute {
    type V = AttributeView;

    open spec fn view(&self) -> AttributeView {
        AttributeView { key: self.key@, value: self.value@ }
    }
}

impl DeepView for Attribute {
    type V = AttributeView;

    open spec fn deep_view(&self) -> AttributeView {
        self@
    }
}

/// The attribute `key` = `value`, as a view.
pub open spec fn attr(key: Seq<char>, value: Seq<char>) -> AttributeView {
    AttributeView { key, value }
}

/// A message that the contract asks the host to carry out once the call has
/// been committed.
#[derive(Debug, PartialEq, Eq)]
pub enum CosmosMsg {
    /// Transfer `amount` from the contract to `to_address`.
    Send { to_address: String, amount: Vec<Coin> },
    /// Call `msg` on the contract at `contract_addr`, with `funds` attached.
    Execute { contract_addr: String, msg: ExecMsg, funds: Vec<Coin> },
}

/// What a `CosmosMsg` stands for.
pub enum CosmosMsgView {
    Send { to_address: Seq<char>, amount: Seq<CoinView> },
    Execute { contract_addr: Seq<char>, msg: ExecMsg, funds: Seq<CoinView> },
}

impl View for CosmosMsg {
    type V = CosmosMsgView;

    open spec fn view(&self) -> CosmosMsgView {
        match self {
            CosmosMsg::Send { to_address, amount } => CosmosMsgView::Send {
                to_address: to_address@,
                amount: amount.deep_view(),
            },
            CosmosMsg::Execute { contract_addr, msg, funds } => CosmosMsgView::Execute {
                contract_addr: contract_addr@,
                msg: *msg,
                funds: funds.deep_view(),
            },
        }
    }
}

impl DeepView for CosmosMsg {
    type V = CosmosMsgView;

    open spec fn deep_view(&self) -> CosmosMsgView {
        self@
    }
}

/// What a successful call hands to the host: the messages to carry out, in
/// order, and the attributes, in order.
#[derive(Debug, PartialEq, Eq)]
pub struct Response {
    pub messages: Vec<CosmosMsg>,
    pub attributes: Vec<Attribute>,
}

/// What a `Response` stands for.
pub struct ResponseView {
    pub messages: Seq<CosmosMsgView>,
    pub attributes: Seq<AttributeView>,
}

impl View for Response {
    type V = ResponseView;

    open spec fn view(&self) -> ResponseView {
        ResponseView {
            messages: self.messages.deep_view(),
            attributes: self.attributes.deep_view(),
        }
    }
}

impl ResponseView {
    pub open spec fn empty() -> ResponseView {
        ResponseView { messages: Seq::empty(), attributes: Seq::empty() }
    }

    pub open spec fn add_message(self, msg: CosmosMsgView) -> ResponseView {
        ResponseView { messages: self.messages.push(msg), attributes: self.attributes }
    }

    pub open spec fn add_attribute(self, key: Seq<char>, value: Seq<char>) -> ResponseView {
        ResponseView { messages: self.messages, attributes: self.attributes.push(attr(key, value)) }
    }
}

impl Response {
    pub fn new() -> (r: Response)
        ensures
            r@ == ResponseView::empty(),
    {
        let r = Response { messages: Vec::new(), attributes: Vec::new() };
        assert(r.messages.deep_view() =~= Seq::empty());
        assert(r.attributes.deep_view() =~= Seq::empty());
        r
    }

    pub fn add_message(self, msg: CosmosMsg) -> (r: Response)
        ensures
            r@ == self@.add_message(msg@),
    {
        let mut r = self;
        r.messages.push(msg);
        assert(r.messages.deep_view() =~= self.messages.deep_view().push(msg@));
        r
    }

    pub fn add_attribute(self, key: &str, value: &str) -> (r: Response)
        ensures
            r@ == self@.add_attribute(key@, value@),
    {
        let mut r = self;
        let attribute = Attribute { key: String::from_str(key), value: String::from_str(value) };
        r.attributes.push(attribute);
        assert(r.attributes.deep_view() =~= self.attributes.deep_view().push(attr(key@, value@)));
        r
    }
}

} // verus!
