//! What holds of a sale whatever its state and whoever acts on it.

use vstd::prelude::*;
use crate::sale::model::{after, mint_model, update_whitelist_model};
use crate::sale::msg::SaleMsgView;
use crate::sale::state::SaleStateView;
use crate::settlement::RoyaltyQueryView;
use crate::types::{EnvView, MessageInfoView};

verus! {

/// Items are minted in turn: a purchase that goes through mints the item
/// whose number was next, to the buyer, and makes the following number the
/// next; a purchase that fails mints nothing and leaves the number as it was.
pub proof fn law_items_are_minted_in_turn(
    s: SaleStateView,
    env: EnvView,
    info: MessageInfoView,
    royalty: RoyaltyQueryView,
    already_minted: u64,
)
    ensures
        ({
            let outcome = mint_model(s, env, info, royalty, already_minted);
            let next = after(s, outcome);
            &&& outcome matches Ok((_, response)) ==> {
                &&& next.token_id_index == s.token_id_index + 1
                &&& response.messages.len() >= 1
                &&& response.messages[0].msg matches SaleMsgView::Mint { token_id, owner, .. }
                &&& token_id == s.token_id_index
                &&& owner == info.sender
                &&& forall|i: int|
                    1 <= i < response.messages.len() ==> !(#[trigger] response.messages[i].msg
                        is Mint)
            }
            &&& outcome is Err ==> next == s
        }),
{
}

/// A sale never sells more items than it offers: while no more items are
/// minted than are on sale, a purchase keeps it so.
pub proof fn law_no_item_is_sold_twice_over(
    s: SaleStateView,
    env: EnvView,
    info: MessageInfoView,
    royalty: RoyaltyQueryView,
    already_minted: u64,
)
    requires
        s.token_id_index <= s.config.num_tokens,
    ensures
        after(s, mint_model(s, env, info, royalty, already_minted)).token_id_index
            <= s.config.num_tokens,
        s.token_id_index == s.config.num_tokens ==> mint_model(
            s,
            env,
            info,
            royalty,
            already_minted,
        ) is Err,
{
}

/// While the whitelist has not expired, nobody who is not on it can buy.
pub proof fn law_whitelist_keeps_strangers_out(
    s: SaleStateView,
    env: EnvView,
    info: MessageInfoView,
    royalty: RoyaltyQueryView,
    already_minted: u64,
)
    requires
        s.config.whitelist_expiration matches Some(e) && !e.expired_at(env.height, env.now),
        !s.whitelist.contains(info.sender),
    ensures
        mint_model(s, env, info, royalty, already_minted) is Err,
{
}

/// Only the admin changes the whitelist: a change that goes through was
/// asked for by the admin, and puts on the whitelist exactly who was on it
/// or was added, less who was removed.
pub proof fn law_only_the_admin_changes_the_whitelist(
    s: SaleStateView,
    info: MessageInfoView,
    add: Option<Seq<Seq<char>>>,
    remove: Option<Seq<Seq<char>>>,
    address: Seq<char>,
)
    requires
        update_whitelist_model(s, info, add, remove) is Ok,
    ensures
        info.sender == s.config.admin,
        after(s, update_whitelist_model(s, info, add, remove)).whitelist.contains(address) <==> (
        s.whitelist.contains(address) || (add matches Some(a) && a.contains(address))) && !(
        remove matches Some(r) && r.contains(address)),
{
}

} // verus!
