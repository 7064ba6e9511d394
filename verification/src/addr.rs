//! Addresses of accounts.

use vstd::prelude::*;

verus! {

/// The address of an account, in the text form the host uses for it.
///
/// The host is the only authority on which texts name an account: a value of
/// this type records that the text came from the host or passed its check.
#[derive(Debug, PartialEq, Eq)]
pub struct Addr {
    text: String,
}

impl View for Addr {
    type V = Seq<char>;

    closed spec fn view(&self) -> Seq<char> {
        self.text@
    }
}

impl DeepView for Addr {
    type V = Seq<char>;

    open spec fn deep_view(&self) -> Seq<char> {
        self@
    }
}

impl Clone for Addr {
    fn clone(&self) -> (r: Self)
        ensures
            r == *self,
    {
        Addr { text: self.text.clone() }
    }
}

impl Addr {
    /// Takes `text` as an address without asking the host about it.
    pub fn unchecked(text: &str) -> (r: Addr)
        ensures
            r@ == text@,
    {
        Addr { text: String::from_str(text) }
    }

    pub fn as_str(&self) -> (r: &str)
        ensures
            r@ == self@,
    {
        self.text.as_str()
    }

    pub fn to_string(&self) -> (r: String)
        ensures
            r@ == self@,
    {
        self.text.clone()
    }

    pub fn into_string(self) -> (r: String)
        ensures
            r@ == self@,
    {
        self.text
    }

    /// Whether both addresses are the same text.
    pub fn same(&self, other: &Addr) -> (r: bool)
        ensures
            r == (self@ == other@),
    {
        self.text == other.text
    }
}

} // verus!
