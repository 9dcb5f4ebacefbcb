//! Moving a deployed marketplace to this version of the code.
//!
//! The host keeps the name and version of the code that wrote the state. An
//! upgrade is accepted only from an older version of this same marketplace;
//! the parameters it finds are carried over.

use vstd::prelude::*;
use vstd::string::*;
use crate::error::{ContractError, ContractErrorView};
use crate::expiry::ExpiryRange;
use crate::settlement::Decimal;
use crate::state::{SudoParams, SudoParamsView};
use crate::types::strs_view;

verus! {

/// The name under which the marketplace records itself.
pub const CONTRACT_NAME: &'static str = "crates.io:human-marketplace";

/// The version of this code.
pub const CONTRACT_VERSION: &'static str = "0.1.0";

/// The name and version of the code that wrote the state.
#[derive(Debug, PartialEq, Eq)]
pub struct ContractVersion {
    pub contract: String,
    pub version: String,
}

/// How the version that wrote the state stands to the version of this code.
#[derive(Clone, Copy, Debug, PartialEq, Eq)]
pub enum VersionOrder {
    Older,
    Same,
    Newer,
}

/// What a migration has to do.
#[derive(Clone, Copy, Debug, PartialEq, Eq)]
pub enum MigrateStep {
    /// The state was written by this version: nothing to do.
    UpToDate,
    /// The state was written by an older version: carry it over.
    Upgrade,
}

/// How long something lasts, in blocks or in seconds.
#[derive(Clone, Copy, Debug, PartialEq, Eq)]
pub enum Duration {
    Height(u64),
    Time(u64),
}

/// The parameters as the earlier version kept them.
#[derive(Debug, PartialEq, Eq)]
pub struct SudoParamsV015 {
    pub ask_expiry: ExpiryRange,
    pub bid_expiry: ExpiryRange,
    pub operators: Vec<String>,
    pub min_price: u128,
    pub stale_bid_duration: Duration,
    pub bid_removal_reward_percent: Decimal,
}

/// How `stored` stands to `current` as semantic versions, in the order that
/// the `semver` crate gives to versions; `None` where either is no semantic
/// version.
pub uninterp spec fn semver_order(stored: Seq<char>, current: Seq<char>) -> Option<VersionOrder>;

/// Parses both strings with `semver::Version::parse` and compares the
/// versions with that type's own order. Both are functions of the text
/// alone, so the outcome is named and the same for the same two strings.
#[verifier::external_body]
fn compare_versions(stored: &str, current: &str) -> (r: Option<VersionOrder>)
    ensures
        r == semver_order(stored@, current@),
{
    let stored = semver::Version::parse(stored).ok()?;
    let current = semver::Version::parse(current).ok()?;
    Some(
        match stored.cmp(&current) {
            std::cmp::Ordering::Less => VersionOrder::Older,
            std::cmp::Ordering::Equal => VersionOrder::Same,
            std::cmp::Ordering::Greater => VersionOrder::Newer,
        },
    )
}

/// What a migration has to do, given whether the state was written by this
/// marketplace and how its version stands to the version of this code: a
/// state of another contract, a version that cannot be read and a version
/// newer than this code are each refused.
pub open spec fn migration_model(same_contract: bool, order: Option<VersionOrder>) -> Result<
    MigrateStep,
    ContractErrorView,
> {
    if !same_contract {
        Err(ContractErrorView::Std("Cannot upgrade to a different contract"@))
    } else {
        match order {
            None => Err(ContractErrorView::Std("Invalid contract version"@)),
            Some(VersionOrder::Newer) => Err(
                ContractErrorView::Std("Cannot upgrade to a previous contract version"@),
            ),
            Some(VersionOrder::Same) => Ok(MigrateStep::UpToDate),
            Some(VersionOrder::Older) => Ok(MigrateStep::Upgrade),
        }
    }
}

/// Decides what a migration has to do, from whether the state was written by
/// this marketplace and how its version stands to the version of this code.
pub fn migration_step(same_contract: bool, order: Option<VersionOrder>) -> (r: Result<
    MigrateStep,
    ContractError,
>)
    ensures
        match migration_model(same_contract, order) {
            Ok(step) => r == Ok::<MigrateStep, ContractError>(step),
            Err(e) => r matches Err(x) && x@ == e,
        },
{
    if !same_contract {
        return Err(ContractError::Std(String::from_str("Cannot upgrade to a different contract")));
    }
    match order {
        None => Err(ContractError::Std(String::from_str("Invalid contract version"))),
        Some(VersionOrder::Newer) => Err(
            ContractError::Std(String::from_str("Cannot upgrade to a previous contract version")),
        ),
        Some(VersionOrder::Same) => Ok(MigrateStep::UpToDate),
        Some(VersionOrder::Older) => Ok(MigrateStep::Upgrade),
    }
}

/// Decides what the migration of a state written by `stored` to the code of
/// version `current_version` has to do.
pub fn migrate(stored: &ContractVersion, current_version: &str) -> (r: Result<
    MigrateStep,
    ContractError,
>)
    ensures
        match migration_model(
            stored.contract@ == CONTRACT_NAME@,
            semver_order(stored.version@, current_version@),
        ) {
            Ok(step) => r == Ok::<MigrateStep, ContractError>(step),
            Err(e) => r matches Err(x) && x@ == e,
        },
{
    let name = String::from_str(CONTRACT_NAME);
    let same_contract = stored.contract == name;
    if !same_contract {
        return migration_step(false, None);
    }
    migration_step(true, compare_versions(stored.version.as_str(), current_version))
}

/// The parameters of this version that carry `old` over: windows, operators
/// and minimum price stay, and no listing fee is charged.
pub fn upgrade_params(old: SudoParamsV015) -> (r: SudoParams)
    ensures
        r@ == (SudoParamsView {
            ask_expiry: old.ask_expiry,
            bid_expiry: old.bid_expiry,
            operators: strs_view(old.operators@),
            min_price: old.min_price,
            listing_fee: 0,
        }),
{
    SudoParams {
        ask_expiry: old.ask_expiry,
        bid_expiry: old.bid_expiry,
        operators: old.operators,
        min_price: old.min_price,
        listing_fee: 0,
    }
}

} // verus!
