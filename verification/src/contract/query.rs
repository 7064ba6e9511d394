//! The questions that the contract answers.

use vstd::prelude::*;
use crate::error::StdError;
use crate::msg::ValueResp;
use crate::state::{not_found, Storage, STATE_KEY};

verus! {

/// The counter as it is stored.
pub fn value(storage: &Storage) -> (r: Result<ValueResp, StdError>)
    ensures
        match storage@.state {
            Some(state) => r is Ok && r->Ok_0.value == state.counter,
            None => r is Err && r->Err_0@ == not_found(STATE_KEY@),
        },
{
    match storage.load_state() {
        Ok(state) => Ok(ValueResp { value: state.counter }),
        Err(e) => Err(e),
    }
}

} // verus!
