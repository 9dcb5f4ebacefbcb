//! Plain values that every action reads: coins, time, the block, the caller.

use vstd::prelude::*;
use vstd::string::*;

verus! {

/// The single denomination in which prices, bids and fees are paid.
pub const NATIVE_DENOM: &'static str = "uheart";

/// Nanoseconds in one second.
pub const NANOS_PER_SECOND: u64 = 1_000_000_000;

/// The accepted denomination as an owned string.
pub fn native_denom() -> (r: String)
    ensures
        r@ == NATIVE_DENOM@,
{
    String::from_str(NATIVE_DENOM)
}

/// View of an optional identifier.
pub open spec fn opt_str_view(o: Option<String>) -> Option<Seq<char>> {
    match o {
        Some(s) => Some(s@),
        None => None,
    }
}

/// Copies an optional identifier.
pub fn clone_opt_string(o: &Option<String>) -> (r: Option<String>)
    ensures
        opt_str_view(r) == opt_str_view(*o),
{
    match o {
        Some(s) => Some(s.clone()),
        None => None,
    }
}

/// View of a list of identifiers.
pub open spec fn strs_view(v: Seq<String>) -> Seq<Seq<char>> {
    v.map_values(|s: String| s@)
}

/// Copies a list of identifiers.
pub fn clone_strings(v: &Vec<String>) -> (r: Vec<String>)
    ensures
        strs_view(r@) == strs_view(v@),
{
    let mut out: Vec<String> = Vec::new();
    let mut i: usize = 0;
    while i < v.len()
        invariant
            i <= v.len(),
            out.len() == i,
            forall|j: int| 0 <= j < i ==> out[j]@ == v[j]@,
        decreases v.len() - i,
    {
        out.push(v[i].clone());
        i = i + 1;
    }
    assert(strs_view(out@) =~= strs_view(v@));
    out
}

/// An amount of one denomination.
#[derive(Debug, PartialEq, Eq)]
pub struct Coin {
    pub denom: String,
    pub amount: u128,
}

pub struct CoinView {
    pub denom: Seq<char>,
    pub amount: u128,
}

impl View for Coin {
    type V = CoinView;

    open spec fn view(&self) -> CoinView {
        CoinView { denom: self.denom@, amount: self.amount }
    }
}

impl Clone for Coin {
    fn clone(&self) -> (r: Self)
        ensures
            r@ == self@,
    {
        Coin { denom: self.denom.clone(), amount: self.amount }
    }
}

/// `amount` of the accepted denomination.
pub open spec fn native_coin(amount: u128) -> CoinView {
    CoinView { denom: NATIVE_DENOM@, amount }
}

/// `amount` of the accepted denomination.
pub fn coin_native(amount: u128) -> (r: Coin)
    ensures
        r@ == native_coin(amount),
{
    Coin { denom: native_denom(), amount }
}

/// View of a list of coins.
pub open spec fn coins_view(v: Seq<Coin>) -> Seq<CoinView> {
    v.map_values(|c: Coin| c@)
}

/// A point in time, in nanoseconds since the epoch.
#[derive(Clone, Copy, Debug, PartialEq, Eq, PartialOrd, Ord)]
pub struct Timestamp {
    pub nanos: u64,
}

impl Timestamp {
    /// The time `seconds` after the epoch; `None` where that is beyond the
    /// representable range.
    pub fn from_seconds(seconds: u64) -> (r: Option<Timestamp>)
        ensures
            seconds * NANOS_PER_SECOND <= u64::MAX ==> r == Some(
                Timestamp { nanos: (seconds * NANOS_PER_SECOND) as u64 },
            ),
            seconds * NANOS_PER_SECOND > u64::MAX ==> r.is_none(),
    {
        match seconds.checked_mul(NANOS_PER_SECOND) {
            Some(nanos) => Some(Timestamp { nanos }),
            None => None,
        }
    }

    /// This time moved forward by `seconds`; `None` where that is beyond the
    /// representable range.
    pub fn plus_seconds(&self, seconds: u64) -> (r: Option<Timestamp>)
        ensures
            self.nanos + seconds * NANOS_PER_SECOND <= u64::MAX ==> r == Some(
                Timestamp { nanos: (self.nanos + seconds * NANOS_PER_SECOND) as u64 },
            ),
            self.nanos + seconds * NANOS_PER_SECOND > u64::MAX ==> r.is_none(),
    {
        match seconds.checked_mul(NANOS_PER_SECOND) {
            Some(delta) => match self.nanos.checked_add(delta) {
                Some(nanos) => Some(Timestamp { nanos }),
                None => None,
            },
            None => None,
        }
    }
}

/// The block in which an action runs.
#[derive(Clone, Copy, Debug, PartialEq, Eq)]
pub struct BlockInfo {
    pub height: u64,
    pub time: Timestamp,
}

/// The engine's own identity on the chain.
#[derive(Debug, PartialEq, Eq)]
pub struct ContractInfo {
    pub address: String,
}

/// What the host tells an action about where and when it runs.
#[derive(Debug, PartialEq, Eq)]
pub struct Env {
    pub block: BlockInfo,
    pub contract: ContractInfo,
}

pub struct EnvView {
    pub height: u64,
    pub now: u64,
    pub contract: Seq<char>,
}

impl View for Env {
    type V = EnvView;

    open spec fn view(&self) -> EnvView {
        EnvView {
            height: self.block.height,
            now: self.block.time.nanos,
            contract: self.contract.address@,
        }
    }
}

/// Who called, and what they paid.
#[derive(Debug, PartialEq, Eq)]
pub struct MessageInfo {
    pub sender: String,
    pub funds: Vec<Coin>,
}

pub struct MessageInfoView {
    pub sender: Seq<char>,
    pub funds: Seq<CoinView>,
}

impl View for MessageInfo {
    type V = MessageInfoView;

    open spec fn view(&self) -> MessageInfoView {
        MessageInfoView { sender: self.sender@, funds: coins_view(self.funds@) }
    }
}

} // verus!
