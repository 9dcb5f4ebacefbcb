//! The privileged configuration actions: changing the parameters, and
//! registering and removing hook subscribers.

use vstd::prelude::*;
use vstd::string::*;
use crate::error::{ContractError, ContractErrorView, ExpiryRangeError, HookError};
use crate::execute::answers;
use crate::expiry::ExpiryRange;
use crate::hooks::Hooks;
use crate::market::{State, StateView};
use crate::model::{after, Outcome};
use crate::msg::SudoMsg;
use crate::response::{Response, ResponseView};
use crate::state::SudoParamsView;
use crate::types::{strs_view, Env};

verus! {

/// `new` where it is given, else `old`.
pub open spec fn or_keep<A>(new: Option<A>, old: A) -> A {
    match new {
        Some(a) => a,
        None => old,
    }
}

/// View of an optional list of identifiers.
pub open spec fn opt_strs_view(o: Option<Vec<String>>) -> Option<Seq<Seq<char>>> {
    match o {
        Some(v) => Some(strs_view(v@)),
        None => None,
    }
}

/// Changing the parameters: a window that is given must be a proper range;
/// each parameter that is given replaces the one in force, the others stay.
pub open spec fn update_params_model(
    s: StateView,
    ask_expiry: Option<ExpiryRange>,
    bid_expiry: Option<ExpiryRange>,
    operators: Option<Seq<Seq<char>>>,
    min_price: Option<u128>,
    listing_fee: Option<u128>,
) -> Outcome {
    if (ask_expiry matches Some(a) && a.min > a.max) || (bid_expiry matches Some(b) && b.min
        > b.max) {
        Err(ContractErrorView::ExpiryRange(ExpiryRangeError::InvalidExpirationRange))
    } else {
        Ok(
            (
                StateView {
                    params: SudoParamsView {
                        ask_expiry: or_keep(ask_expiry, s.params.ask_expiry),
                        bid_expiry: or_keep(bid_expiry, s.params.bid_expiry),
                        operators: or_keep(operators, s.params.operators),
                        min_price: or_keep(min_price, s.params.min_price),
                        listing_fee: or_keep(listing_fee, s.params.listing_fee),
                    },
                    ..s
                },
                ResponseView::empty().with_attribute("action"@, "update_params"@),
            ),
        )
    }
}

/// Registering `hook` with `hooks`: an address that is registered already is
/// refused; a new one is put after the others.
pub open spec fn add_hook_model(hooks: Seq<Seq<char>>, hook: Seq<char>) -> Result<
    Seq<Seq<char>>,
    ContractErrorView,
> {
    if hooks.contains(hook) {
        Err(ContractErrorView::Hook(HookError::HookAlreadyRegistered))
    } else {
        Ok(hooks.push(hook))
    }
}

/// Removing `hook` from `hooks`: an address that is not registered is
/// refused; a registered one is taken out, the others keep their order.
pub open spec fn remove_hook_model(hooks: Seq<Seq<char>>, hook: Seq<char>) -> Result<
    Seq<Seq<char>>,
    ContractErrorView,
> {
    if hooks.contains(hook) {
        Ok(hooks.remove(hooks.index_of(hook)))
    } else {
        Err(ContractErrorView::Hook(HookError::HookNotRegistered))
    }
}

/// The record of a change to a registry.
pub open spec fn hook_changed(action: Seq<char>, hook: Seq<char>) -> ResponseView {
    ResponseView::empty().with_attribute("action"@, action).with_attribute("hook"@, hook)
}

/// Changes the parameters that are given.
pub fn sudo_update_params(
    state: &mut State,
    _env: &Env,
    ask_expiry: Option<ExpiryRange>,
    bid_expiry: Option<ExpiryRange>,
    operators: Option<Vec<String>>,
    min_price: Option<u128>,
    listing_fee: Option<u128>,
) -> (r: Result<Response, ContractError>)
    requires
        old(state).wf(),
    ensures
        final(state).wf(),
        final(state)@ == after(
            old(state)@,
            update_params_model(
                old(state)@,
                ask_expiry,
                bid_expiry,
                opt_strs_view(operators),
                min_price,
                listing_fee,
            ),
        ),
        answers(
            r,
            update_params_model(
                old(state)@,
                ask_expiry,
                bid_expiry,
                opt_strs_view(operators),
                min_price,
                listing_fee,
            ),
        ),
{
    if let Some(a) = &ask_expiry {
        if let Err(e) = a.validate() {
            return Err(ContractError::ExpiryRange(e));
        }
    }
    if let Some(b) = &bid_expiry {
        if let Err(e) = b.validate() {
            return Err(ContractError::ExpiryRange(e));
        }
    }
    if let Some(a) = ask_expiry {
        state.params.ask_expiry = a;
    }
    if let Some(b) = bid_expiry {
        state.params.bid_expiry = b;
    }
    if let Some(operators) = operators {
        state.params.operators = operators;
    }
    if let Some(min_price) = min_price {
        state.params.min_price = min_price;
    }
    if let Some(listing_fee) = listing_fee {
        state.params.listing_fee = listing_fee;
    }
    let mut res = Response::new();
    res.add_attribute(String::from_str("action"), String::from_str("update_params"));
    Ok(res)
}

/// Registers `hook` with `hooks` and records the change under `action`.
fn add_hook(hooks: &mut Hooks, hook: String, action: &str) -> (r: Result<Response, ContractError>)
    requires
        old(hooks).wf(),
    ensures
        final(hooks).wf(),
        match add_hook_model(old(hooks)@, hook@) {
            Ok(next) => {
                &&& final(hooks)@ == next
                &&& r matches Ok(x)
                &&& x@ == hook_changed(action@, hook@)
            },
            Err(e) => {
                &&& final(hooks)@ == old(hooks)@
                &&& r matches Err(x)
                &&& x@ == e
            },
        },
{
    let name = hook.clone();
    if let Err(e) = hooks.add_hook(hook) {
        return Err(ContractError::Hook(e));
    }
    let mut res = Response::new();
    res.add_attribute(String::from_str("action"), String::from_str(action));
    res.add_attribute(String::from_str("hook"), name);
    Ok(res)
}

/// Removes `hook` from `hooks` and records the change under `action`.
fn remove_hook(hooks: &mut Hooks, hook: String, action: &str) -> (r: Result<
    Response,
    ContractError,
>)
    requires
        old(hooks).wf(),
    ensures
        final(hooks).wf(),
        match remove_hook_model(old(hooks)@, hook@) {
            Ok(next) => {
                &&& final(hooks)@ == next
                &&& r matches Ok(x)
                &&& x@ == hook_changed(action@, hook@)
            },
            Err(e) => {
                &&& final(hooks)@ == old(hooks)@
                &&& r matches Err(x)
                &&& x@ == e
            },
        },
{
    if let Err(e) = hooks.remove_hook(&hook) {
        return Err(ContractError::Hook(e));
    }
    let mut res = Response::new();
    res.add_attribute(String::from_str("action"), String::from_str(action));
    res.add_attribute(String::from_str("hook"), hook);
    Ok(res)
}

/// Registers a subscriber to sales.
pub fn sudo_add_sale_hook(state: &mut State, hook: String) -> (r: Result<Response, ContractError>)
    requires
        old(state).wf(),
    ensures
        final(state).wf(),
        final(state)@ == after(old(state)@, sudo_model(old(state)@, (SudoMsg::AddSaleHook { hook }))),
        answers(r, sudo_model(old(state)@, (SudoMsg::AddSaleHook { hook }))),
{
    add_hook(&mut state.sale_hooks, hook, "add_sale_hook")
}

/// Registers a subscriber to asks.
pub fn sudo_add_ask_hook(state: &mut State, _env: &Env, hook: String) -> (r: Result<
    Response,
    ContractError,
>)
    requires
        old(state).wf(),
    ensures
        final(state).wf(),
        final(state)@ == after(old(state)@, sudo_model(old(state)@, (SudoMsg::AddAskHook { hook }))),
        answers(r, sudo_model(old(state)@, (SudoMsg::AddAskHook { hook }))),
{
    add_hook(&mut state.ask_hooks, hook, "add_ask_hook")
}

/// Registers a subscriber to bids.
pub fn sudo_add_bid_hook(state: &mut State, hook: String) -> (r: Result<Response, ContractError>)
    requires
        old(state).wf(),
    ensures
        final(state).wf(),
        final(state)@ == after(old(state)@, sudo_model(old(state)@, (SudoMsg::AddBidHook { hook }))),
        answers(r, sudo_model(old(state)@, (SudoMsg::AddBidHook { hook }))),
{
    add_hook(&mut state.bid_hooks, hook, "add_bid_hook")
}

/// Registers a subscriber to collection bids.
pub fn sudo_add_collection_bid_hook(state: &mut State, hook: String) -> (r: Result<
    Response,
    ContractError,
>)
    requires
        old(state).wf(),
    ensures
        final(state).wf(),
        final(state)@ == after(old(state)@, sudo_model(old(state)@, (SudoMsg::AddCollectionBidHook { hook }))),
        answers(r, sudo_model(old(state)@, (SudoMsg::AddCollectionBidHook { hook }))),
{
    add_hook(&mut state.collection_bid_hooks, hook, "add_collection_bid_hook")
}

/// Removes a subscriber to sales.
pub fn sudo_remove_sale_hook(state: &mut State, hook: String) -> (r: Result<
    Response,
    ContractError,
>)
    requires
        old(state).wf(),
    ensures
        final(state).wf(),
        final(state)@ == after(old(state)@, sudo_model(old(state)@, (SudoMsg::RemoveSaleHook { hook }))),
        answers(r, sudo_model(old(state)@, (SudoMsg::RemoveSaleHook { hook }))),
{
    remove_hook(&mut state.sale_hooks, hook, "remove_sale_hook")
}

/// Removes a subscriber to asks.
pub fn sudo_remove_ask_hook(state: &mut State, hook: String) -> (r: Result<
    Response,
    ContractError,
>)
    requires
        old(state).wf(),
    ensures
        final(state).wf(),
        final(state)@ == after(old(state)@, sudo_model(old(state)@, (SudoMsg::RemoveAskHook { hook }))),
        answers(r, sudo_model(old(state)@, (SudoMsg::RemoveAskHook { hook }))),
{
    remove_hook(&mut state.ask_hooks, hook, "remove_ask_hook")
}

/// Removes a subscriber to bids.
pub fn sudo_remove_bid_hook(state: &mut State, hook: String) -> (r: Result<
    Response,
    ContractError,
>)
    requires
        old(state).wf(),
    ensures
        final(state).wf(),
        final(state)@ == after(old(state)@, sudo_model(old(state)@, (SudoMsg::RemoveBidHook { hook }))),
        answers(r, sudo_model(old(state)@, (SudoMsg::RemoveBidHook { hook }))),
{
    remove_hook(&mut state.bid_hooks, hook, "remove_bid_hook")
}

/// Removes a subscriber to collection bids.
pub fn sudo_remove_collection_bid_hook(state: &mut State, hook: String) -> (r: Result<
    Response,
    ContractError,
>)
    requires
        old(state).wf(),
    ensures
        final(state).wf(),
        final(state)@ == after(old(state)@, sudo_model(old(state)@, (SudoMsg::RemoveCollectionBidHook { hook }))),
        answers(r, sudo_model(old(state)@, (SudoMsg::RemoveCollectionBidHook { hook }))),
{
    remove_hook(&mut state.collection_bid_hooks, hook, "remove_collection_bid_hook")
}

/// Where a configuration action leads.
pub open spec fn sudo_model(s: StateView, msg: SudoMsg) -> Outcome {
    match msg {
        SudoMsg::UpdateParams { ask_expiry, bid_expiry, operators, min_price, listing_fee } => {
            update_params_model(
                s,
                ask_expiry,
                bid_expiry,
                opt_strs_view(operators),
                min_price,
                listing_fee,
            )
        },
        SudoMsg::AddSaleHook { hook } => match add_hook_model(s.sale_hooks, hook@) {
            Ok(next) => Ok(
                (StateView { sale_hooks: next, ..s }, hook_changed("add_sale_hook"@, hook@)),
            ),
            Err(e) => Err(e),
        },
        SudoMsg::AddAskHook { hook } => match add_hook_model(s.ask_hooks, hook@) {
            Ok(next) => Ok(
                (StateView { ask_hooks: next, ..s }, hook_changed("add_ask_hook"@, hook@)),
            ),
            Err(e) => Err(e),
        },
        SudoMsg::AddBidHook { hook } => match add_hook_model(s.bid_hooks, hook@) {
            Ok(next) => Ok(
                (StateView { bid_hooks: next, ..s }, hook_changed("add_bid_hook"@, hook@)),
            ),
            Err(e) => Err(e),
        },
        SudoMsg::AddCollectionBidHook { hook } => match add_hook_model(
            s.collection_bid_hooks,
            hook@,
        ) {
            Ok(next) => Ok(
                (
                    StateView { collection_bid_hooks: next, ..s },
                    hook_changed("add_collection_bid_hook"@, hook@),
                ),
            ),
            Err(e) => Err(e),
        },
        SudoMsg::RemoveSaleHook { hook } => match remove_hook_model(s.sale_hooks, hook@) {
            Ok(next) => Ok(
                (StateView { sale_hooks: next, ..s }, hook_changed("remove_sale_hook"@, hook@)),
            ),
            Err(e) => Err(e),
        },
        SudoMsg::RemoveAskHook { hook } => match remove_hook_model(s.ask_hooks, hook@) {
            Ok(next) => Ok(
                (StateView { ask_hooks: next, ..s }, hook_changed("remove_ask_hook"@, hook@)),
            ),
            Err(e) => Err(e),
        },
        SudoMsg::RemoveBidHook { hook } => match remove_hook_model(s.bid_hooks, hook@) {
            Ok(next) => Ok(
                (StateView { bid_hooks: next, ..s }, hook_changed("remove_bid_hook"@, hook@)),
            ),
            Err(e) => Err(e),
        },
        SudoMsg::RemoveCollectionBidHook { hook } => match remove_hook_model(
            s.collection_bid_hooks,
            hook@,
        ) {
            Ok(next) => Ok(
                (
                    StateView { collection_bid_hooks: next, ..s },
                    hook_changed("remove_collection_bid_hook"@, hook@),
                ),
            ),
            Err(e) => Err(e),
        },
    }
}

/// Carries out the configuration action that `msg` names.
pub fn sudo(state: &mut State, env: &Env, msg: SudoMsg) -> (r: Result<Response, ContractError>)
    requires
        old(state).wf(),
    ensures
        final(state).wf(),
        final(state)@ == after(old(state)@, sudo_model(old(state)@, msg)),
        answers(r, sudo_model(old(state)@, msg)),
{
    match msg {
        SudoMsg::UpdateParams { ask_expiry, bid_expiry, operators, min_price, listing_fee } => {
            sudo_update_params(
                state,
                env,
                ask_expiry,
                bid_expiry,
                operators,
                min_price,
                listing_fee,
            )
        },
        SudoMsg::AddSaleHook { hook } => sudo_add_sale_hook(state, hook),
        SudoMsg::AddAskHook { hook } => sudo_add_ask_hook(state, env, hook),
        SudoMsg::AddBidHook { hook } => sudo_add_bid_hook(state, hook),
        SudoMsg::AddCollectionBidHook { hook } => sudo_add_collection_bid_hook(state, hook),
        SudoMsg::RemoveSaleHook { hook } => sudo_remove_sale_hook(state, hook),
        SudoMsg::RemoveAskHook { hook } => sudo_remove_ask_hook(state, hook),
        SudoMsg::RemoveBidHook { hook } => sudo_remove_bid_hook(state, hook),
        SudoMsg::RemoveCollectionBidHook { hook } => sudo_remove_collection_bid_hook(state, hook),
    }
}

} // verus!
