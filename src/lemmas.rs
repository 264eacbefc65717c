use vstd::prelude::*;

use crate::pallet::PalletView;
use crate::types::{AccountId, Error, KittyId};

verus! {

/// Identifiers are handed out in strictly increasing order: each new one lies
/// above every identifier already in use, and a later one lies above it, so
/// no identifier is issued twice.
pub proof fn lemma_ids_strictly_increase(
    s0: PalletView,
    s1: PalletView,
    s2: PalletView,
    id1: KittyId,
    id2: KittyId,
    who1: AccountId,
    who2: AccountId,
)
    requires
        s0.wf(),
        s0.minted(s1, id1, who1),
        s1.minted(s2, id2, who2),
    ensures
        forall|k: KittyId| #[trigger] s0.kitties.contains_key(k) ==> k < id1,
        id1 < id2,
        s1.kitties.contains_key(id1),
        !s1.kitties.contains_key(id2),
{
    assert(s1.kitties.contains_key(id1));
}

/// A listing by anyone but the owner of an existing kitty is refused as not
/// the owner's.
pub proof fn lemma_sale_by_non_owner_refused(s: PalletView, who: AccountId, id: KittyId)
    requires
        s.kitties.contains_key(id),
        s.owners[id] != who,
    ensures
        s.sale_outcome(who, id) == Err::<(), Error>(Error::NotOwner),
{
}

/// Once a kitty is listed, listing it again is refused as already on sale.
pub proof fn lemma_second_sale_refused(s: PalletView, who: AccountId, id: KittyId)
    requires
        s.wf(),
        s.sale_outcome(who, id) is Ok,
    ensures
        s.listed(who, id).sale_outcome(who, id) == Err::<(), Error>(Error::AlreadyOnSale),
{
}

/// The owner cannot buy their own kitty, and nobody can buy a kitty that is
/// not listed.
pub proof fn lemma_buy_refusals(s: PalletView, who: AccountId, id: KittyId)
    requires
        s.wf(),
        s.kitties.contains_key(id),
    ensures
        s.owners[id] == who ==> s.buy_refusal(who, id) == Some(Error::AlreadyOwned),
        s.owners[id] != who && !s.on_sale.contains(id) ==> s.buy_refusal(who, id) == Some(
            Error::NotOnSale,
        ),
{
}

/// A purchase that meets its conditions either changes both the owner and the
/// listing or neither: in the state before and in the state after, the buyer
/// owns the kitty exactly when it is no longer listed.
pub proof fn lemma_buy_all_or_nothing(s: PalletView, t: PalletView, who: AccountId, id: KittyId)
    requires
        s.wf(),
        s.buy_refusal(who, id) is None,
        t == s || t == s.bought(who, id),
    ensures
        t.wf(),
        t.owners.contains_key(id),
        (t.owners[id] == who) <==> !t.on_sale.contains(id),
{
    if t == s.bought(who, id) {
        assert(t.kitties.dom() =~= t.owners.dom());
    }
}

} // verus!
