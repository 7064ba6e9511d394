//! The failures of a call.

use vstd::prelude::*;

verus! {

/// The arithmetic step that left the range of its type.
#[derive(Clone, Copy, Debug, PartialEq, Eq, Structural)]
pub enum OverflowOperation {
    Add,
    Sub,
    Mul,
}

/// A failure of the store, of the host, or of arithmetic.
#[derive(Debug, PartialEq, Eq)]
pub enum StdError {
    /// Nothing was ever saved under the key named by `kind`.
    NotFound { kind: String },
    /// A result would have left the range of its type.
    Overflow { operation: OverflowOperation },
    /// A failure that the host reported, in its own words.
    GenericErr { msg: String },
}

/// What a `StdError` stands for.
pub enum StdErrorView {
    NotFound { kind: Seq<char> },
    Overflow { operation: OverflowOperation },
    GenericErr { msg: Seq<char> },
}

impl View for StdError {
    type V = StdErrorView;

    open spec fn view(&self) -> StdErrorView {
        match self {
            StdError::NotFound { kind } => StdErrorView::NotFound { kind: kind@ },
            StdError::Overflow { operation } => StdErrorView::Overflow { operation: *operation },
            StdError::GenericErr { msg } => StdErrorView::GenericErr { msg: msg@ },
        }
    }
}

impl StdError {
    pub fn not_found(kind: &str) -> (r: StdError)
        ensures
            r@ == (StdErrorView::NotFound { kind: kind@ }),
    {
        StdError::NotFound { kind: String::from_str(kind) }
    }

    pub fn overflow(operation: OverflowOperation) -> (r: StdError)
        ensures
            r@ == (StdErrorView::Overflow { operation }),
    {
        StdError::Overflow { operation }
    }

    pub fn generic_err(msg: &str) -> (r: StdError)
        ensures
            r@ == (StdErrorView::GenericErr { msg: msg@ }),
    {
        StdError::GenericErr { msg: String::from_str(msg) }
    }
}

/// Why a call on the contract failed.
#[derive(Debug, PartialEq, Eq)]
pub enum ContractError {
    Std(StdError),
    /// The caller is not the stored owner, whose address is `owner`.
    Unauthorized { owner: String },
    /// The installed code goes by another name, the one given.
    InvalidName(String),
    /// No migration starts at the installed version, the one given.
    InvalidVersion(String),
}

/// What a `ContractError` stands for.
pub enum ContractErrorView {
    Std(StdErrorView),
    Unauthorized { owner: Seq<char> },
    InvalidName(Seq<char>),
    InvalidVersion(Seq<char>),
}

impl View for ContractError {
    type V = ContractErrorView;

    open spec fn view(&self) -> ContractErrorView {
        match self {
            ContractError::Std(e) => ContractErrorView::Std(e@),
            ContractError::Unauthorized { owner } => ContractErrorView::Unauthorized { owner: owner@ },
            ContractError::InvalidName(name) => ContractErrorView::InvalidName(name@),
            ContractError::InvalidVersion(version) => ContractErrorView::InvalidVersion(version@),
        }
    }
}

impl From<StdError> for ContractError {
    fn from(e: StdError) -> (r: ContractError)
    {
        ContractError::Std(e)
    }
}

impl vstd::std_specs::convert::FromSpecImpl<StdError> for ContractError {
    open spec fn obeys_from_spec() -> bool {
        true
    }

    open spec fn from_spec(e: StdError) -> ContractError {
        ContractError::Std(e)
    }
}

} // verus!
