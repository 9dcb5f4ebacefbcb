//! Points at which something expires: a block height, a time, or never.

use vstd::prelude::*;
use crate::types::{BlockInfo, Timestamp};

verus! {

/// The point at which something expires.
#[derive(Clone, Copy, Debug, PartialEq, Eq)]
pub enum Expiration {
    /// Expired once the block height has reached this height.
    AtHeight(u64),
    /// Expired once the block time has reached this time.
    AtTime(Timestamp),
    /// Never expired.
    Never,
}

impl Expiration {
    /// Whether this point has been reached at block height `height` and
    /// block time `now`: a height or a time has expired once the block has
    /// reached it, and `Never` never has.
    pub open spec fn expired_at(self, height: u64, now: u64) -> bool {
        match self {
            Expiration::AtHeight(h) => height >= h,
            Expiration::AtTime(time) => now >= time.nanos,
            Expiration::Never => false,
        }
    }

    /// Whether this point has been reached in `block`.
    pub fn is_expired(&self, block: &BlockInfo) -> (r: bool)
        ensures
            r == self.expired_at(block.height, block.time.nanos),
    {
        expiration_is_expired(self, block)
    }

    /// This point in words, as `to_string` gives it.
    pub fn to_string(&self) -> (r: String)
        ensures
            r@ == expiration_text(*self),
    {
        expiration_to_string(self)
    }
}

/// Asks `cw_utils::Expiration::is_expired` whether `e` has been reached in
/// `block`. By its source a height or a time has expired once the block has
/// reached it, and `Never` never has.
#[verifier::external_body]
fn expiration_is_expired(e: &Expiration, block: &BlockInfo) -> (r: bool)
    ensures
        r == e.expired_at(block.height, block.time.nanos),
{
    let outside = match e {
        Expiration::AtHeight(height) => cw_utils::Expiration::AtHeight(*height),
        Expiration::AtTime(t) => {
            cw_utils::Expiration::AtTime(cosmwasm_std::Timestamp::from_nanos(t.nanos))
        },
        Expiration::Never => cw_utils::Expiration::Never {},
    };
    let time = cosmwasm_std::Timestamp::from_nanos(block.time.nanos);
    let block = cosmwasm_std::BlockInfo { height: block.height, time, chain_id: String::new() };
    outside.is_expired(&block)
}

/// The words in which `cw_utils` puts an expiration.
pub uninterp spec fn expiration_text(e: Expiration) -> Seq<char>;

/// Puts an expiration in words with the `Display` of
/// `cw_utils::Expiration`, which depends on the expiration alone.
#[verifier::external_body]
fn expiration_to_string(e: &Expiration) -> (r: String)
    ensures
        r@ == expiration_text(*e),
{
    let outside = match e {
        Expiration::AtHeight(height) => cw_utils::Expiration::AtHeight(*height),
        Expiration::AtTime(t) => {
            cw_utils::Expiration::AtTime(cosmwasm_std::Timestamp::from_nanos(t.nanos))
        },
        Expiration::Never => cw_utils::Expiration::Never {},
    };
    outside.to_string()
}

} // verus!
