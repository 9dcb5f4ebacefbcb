//! What the funds attached to a purchase cover.

use vstd::prelude::*;
use crate::types::{coins_view, Coin, CoinView};

verus! {

/// `i` is the place of the first coin of `denom` among `coins`.
pub open spec fn first_of_denom(coins: Seq<CoinView>, denom: Seq<char>, i: int) -> bool {
    &&& 0 <= i < coins.len()
    &&& coins[i].denom == denom
    &&& forall|j: int| 0 <= j < i ==> (#[trigger] coins[j]).denom != denom
}

/// The first coin of the required denomination among `coins` is at least the
/// required amount.
pub open spec fn covers(coins: Seq<CoinView>, required: CoinView) -> bool {
    exists|i: int| #[trigger]
        first_of_denom(coins, required.denom, i) && coins[i].amount >= required.amount
}

/// Asks `cosmwasm_std::has_coins` whether `coins` cover `required`. By its
/// source it looks at the first coin of the required denomination and
/// compares its amount; without such a coin the answer is no.
#[verifier::external_body]
pub(crate) fn has_coins(coins: &Vec<Coin>, required: &Coin) -> (r: bool)
    ensures
        r == covers(coins_view(coins@), required@),
{
    let coins: Vec<cosmwasm_std::Coin> =
        coins.iter().map(|c| cosmwasm_std::Coin::new(c.amount, c.denom.clone())).collect();
    let required = cosmwasm_std::Coin::new(required.amount, required.denom.clone());
    cosmwasm_std::has_coins(&coins, &required)
}

/// Whether some coin among `coins` equals `wanted`, in denomination and
/// amount.
pub fn holds_exactly(coins: &Vec<Coin>, wanted: &Coin) -> (r: bool)
    ensures
        r == coins_view(coins@).contains(wanted@),
{
    let mut i: usize = 0;
    while i < coins.len()
        invariant
            i <= coins.len(),
            forall|j: int| 0 <= j < i ==> #[trigger] coins_view(coins@)[j] != wanted@,
        decreases coins.len() - i,
    {
        if coins[i].denom == wanted.denom && coins[i].amount == wanted.amount {
            assert(coins_view(coins@)[i as int] == wanted@);
            return true;
        }
        i = i + 1;
    }
    false
}

} // verus!
