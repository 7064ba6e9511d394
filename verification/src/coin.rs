//! Coins: amounts of a denomination.

use vstd::prelude::*;

verus! {

/// An amount of one denomination.
#[derive(Debug, PartialEq, Eq)]
pub struct Coin {
    pub denom: String,
    pub amount: u128,
}

/// What a `Coin` stands for: the denomination's name and the amount.
pub struct CoinView {
    pub denom: Seq<char>,
    pub amount: nat,
}

impl View for Coin {
    type V = CoinView;

    open spec fn view(&self) -> CoinView {
        CoinView { denom: self.denom@, amount: self.amount as nat }
    }
}

impl DeepView for Coin {
    type V = CoinView;

    open spec fn deep_view(&self) -> CoinView {
        self@
    }
}

impl Clone for Coin {
    fn clone(&self) -> (r: Self)
        ensures
            r == *self,
    {
        Coin { denom: self.denom.clone(), amount: self.amount }
    }
}

impl Coin {
    pub fn new(amount: u128, denom: &str) -> (r: Coin)
        ensures
            r@ == (CoinView { denom: denom@, amount: amount as nat }),
    {
        Coin { denom: String::from_str(denom), amount }
    }
}

/// A balance of the single coin `amount` of `denom`.
pub fn coins(amount: u128, denom: &str) -> (r: Vec<Coin>)
    ensures
        r.deep_view() == seq![CoinView { denom: denom@, amount: amount as nat }],
{
    let mut r: Vec<Coin> = Vec::new();
    r.push(Coin::new(amount, denom));
    assert(r.deep_view() =~= seq![CoinView { denom: denom@, amount: amount as nat }]);
    r
}

/// A copy of `list`, coin by coin.
pub fn clone_coins(list: &Vec<Coin>) -> (r: Vec<Coin>)
    ensures
        r@ == list@,
{
    let mut r: Vec<Coin> = Vec::new();
    let mut i: usize = 0;
    while i < list.len()
        invariant
            i <= list.len(),
            r@ == list@.subrange(0, i as int),
        decreases list.len() - i,
    {
        r.push(list[i].clone());
        i += 1;
        assert(r@ =~= list@.subrange(0, i as int));
    }
    assert(list@.subrange(0, i as int) =~= list@);
    r
}

} // verus!
