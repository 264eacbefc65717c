use std::collections::{HashMap, HashSet};

use vstd::prelude::*;

use crate::currency::{moved, same_balances, Currency};
use crate::dna::{blake2_128_of, mix_byte, mix_dna, random_value, seed_payload};
use crate::types::{AccountId, Balance, Error, Event, Kitty, KittyId, KittyName, PaymentError};

verus! {

broadcast use vstd::std_specs::hash::group_hash_axioms;

/// The fixed settings of a ledger.
#[derive(Clone, Copy, Debug, PartialEq, Eq)]
pub struct Config {
    /// What minting, breeding and buying a kitty each cost.
    pub kitty_price: Balance,
    /// The account that minting and breeding fees are paid to.
    pub pallet_account: AccountId,
}

/// The randomness that a call draws genetic codes from.
#[derive(Clone, Copy, Debug, PartialEq, Eq)]
pub struct Entropy {
    /// The slot's random seed.
    pub seed: [u8; 32],
    /// The index of the call within the slot.
    pub extrinsic_index: Option<u32>,
}

/// The result of a call whose payment had outcome `outcome`: `value` once
/// paid, else the payment's own error.
pub open spec fn paid<T>(outcome: Result<(), PaymentError>, value: T) -> Result<T, Error> {
    match outcome {
        Ok(()) => Ok(value),
        Err(e) => Err(Error::Payment(e)),
    }
}

/// The state of a ledger as mathematics.
pub ghost struct PalletView {
    pub next_kitty_id: KittyId,
    pub kitties: Map<KittyId, Kitty>,
    pub owners: Map<KittyId, AccountId>,
    pub parents: Map<KittyId, (KittyId, KittyId)>,
    pub on_sale: Set<KittyId>,
    pub events: Seq<Event>,
    pub kitty_price: Balance,
    pub pallet_account: AccountId,
}

impl PalletView {
    /// Every kitty has exactly one owner and an identifier below the next one;
    /// only kitties are listed; recorded parents are two distinct earlier kitties.
    pub open spec fn wf(self) -> bool {
        &&& self.kitties.dom() == self.owners.dom()
        &&& forall|id: KittyId| #[trigger] self.kitties.contains_key(id) ==> id < self.next_kitty_id
        &&& forall|id: KittyId| #[trigger] self.on_sale.contains(id) ==> self.kitties.contains_key(id)
        &&& forall|id: KittyId| #[trigger]
            self.parents.contains_key(id) ==> {
                let (a, b) = self.parents[id];
                &&& self.kitties.contains_key(id)
                &&& a != b
                &&& a < id
                &&& b < id
                &&& self.kitties.contains_key(a)
                &&& self.kitties.contains_key(b)
            }
    }

    /// `t` is this state with identifier `id`, the next one, handed to a new
    /// kitty owned by `who` and the counter advanced past it; listings and
    /// settings are as they were.
    pub open spec fn minted(self, t: PalletView, id: KittyId, who: AccountId) -> bool {
        &&& id == self.next_kitty_id
        &&& !self.kitties.contains_key(id)
        &&& t.next_kitty_id == id + 1
        &&& t.kitties == self.kitties.insert(id, t.kitties[id])
        &&& t.owners == self.owners.insert(id, who)
        &&& t.on_sale == self.on_sale
        &&& t.kitty_price == self.kitty_price
        &&& t.pallet_account == self.pallet_account
    }

    /// `t` is this state with the owner of `id` set to `who`; the counter,
    /// the registry, lineage and settings are as they were.
    pub open spec fn owner_set(self, t: PalletView, id: KittyId, who: AccountId) -> bool {
        &&& t.next_kitty_id == self.next_kitty_id
        &&& t.kitties == self.kitties
        &&& t.owners == self.owners.insert(id, who)
        &&& t.parents == self.parents
        &&& t.kitty_price == self.kitty_price
        &&& t.pallet_account == self.pallet_account
    }

    /// What listing kitty `id` for `who` gives: the first condition that fails,
    /// else success.
    pub open spec fn sale_outcome(self, who: AccountId, id: KittyId) -> Result<(), Error> {
        if !self.kitties.contains_key(id) {
            Err(Error::InvalidKittyId)
        } else if self.owners[id] != who {
            Err(Error::NotOwner)
        } else if self.on_sale.contains(id) {
            Err(Error::AlreadyOnSale)
        } else {
            Ok(())
        }
    }

    /// The state after `who` lists kitty `id`.
    pub open spec fn listed(self, who: AccountId, id: KittyId) -> PalletView {
        PalletView {
            on_sale: self.on_sale.insert(id),
            events: self.events.push(Event::KittyOnSale { who, kitty_id: id }),
            ..self
        }
    }

    /// Why `who` may not buy kitty `id`, where a condition fails before payment.
    pub open spec fn buy_refusal(self, who: AccountId, id: KittyId) -> Option<Error> {
        if !self.kitties.contains_key(id) {
            Some(Error::InvalidKittyId)
        } else if !self.owners.contains_key(id) {
            Some(Error::NoOwner)
        } else if self.owners[id] == who {
            Some(Error::AlreadyOwned)
        } else if !self.on_sale.contains(id) {
            Some(Error::NotOnSale)
        } else {
            None
        }
    }

    /// The state after `who` buys kitty `id`: the owner and the listing change
    /// together.
    pub open spec fn bought(self, who: AccountId, id: KittyId) -> PalletView {
        PalletView {
            owners: self.owners.insert(id, who),
            on_sale: self.on_sale.remove(id),
            events: self.events.push(Event::KittyBought { who, kitty_id: id }),
            ..self
        }
    }
}

/// The ledger of kitties: registry, owners, lineage, listings and the events
/// reported so far.
pub struct Pallet {
    next_kitty_id: KittyId,
    kitties: HashMap<KittyId, Kitty>,
    owners: HashMap<KittyId, AccountId>,
    parents: HashMap<KittyId, (KittyId, KittyId)>,
    on_sale: HashSet<KittyId>,
    events: Vec<Event>,
    kitty_price: Balance,
    pallet_account: AccountId,
}

impl View for Pallet {
    type V = PalletView;

    closed spec fn view(&self) -> PalletView {
        PalletView {
            next_kitty_id: self.next_kitty_id,
            kitties: self.kitties@,
            owners: self.owners@,
            parents: self.parents@,
            on_sale: self.on_sale@,
            events: self.events@,
            kitty_price: self.kitty_price,
            pallet_account: self.pallet_account,
        }
    }
}

impl Pallet {
    /// An empty ledger with the given settings.
    pub fn new(config: Config) -> (r: Pallet)
        ensures
            r@.wf(),
            r@.next_kitty_id == 0,
            r@.kitties == Map::<KittyId, Kitty>::empty(),
            r@.owners == Map::<KittyId, AccountId>::empty(),
            r@.parents == Map::<KittyId, (KittyId, KittyId)>::empty(),
            r@.on_sale == Set::<KittyId>::empty(),
            r@.events == Seq::<Event>::empty(),
            r@.kitty_price == config.kitty_price,
            r@.pallet_account == config.pallet_account,
    {
        let r = Pallet {
            next_kitty_id: 0,
            kitties: HashMap::new(),
            owners: HashMap::new(),
            parents: HashMap::new(),
            on_sale: HashSet::new(),
            events: Vec::new(),
            kitty_price: config.kitty_price,
            pallet_account: config.pallet_account,
        };
        assert(r@.kitties.dom() =~= r@.owners.dom());
        r
    }

    /// Hands out the next identifier and advances the counter past it, or
    /// fails and changes nothing when the counter cannot advance.
    pub fn get_next_kitty_id(&mut self) -> (r: Result<KittyId, Error>)
        ensures
            old(self)@.next_kitty_id == KittyId::MAX ==> r == Err::<KittyId, Error>(
                Error::IdSpaceExhausted,
            ) && final(self)@ == old(self)@,
            old(self)@.next_kitty_id < KittyId::MAX ==> r == Ok::<KittyId, Error>(
                old(self)@.next_kitty_id,
            ) && final(self)@ == (PalletView {
                next_kitty_id: (old(self)@.next_kitty_id + 1) as KittyId,
                ..old(self)@
            }),
    {
        let current_id = self.next_kitty_id;
        match current_id.checked_add(1) {
            Some(next) => {
                self.next_kitty_id = next;
                Ok(current_id)
            },
            None => Err(Error::IdSpaceExhausted),
        }
    }

    /// Mints a kitty named `name` for `who`, with a genetic code drawn from
    /// `entropy`, charging the price to the ledger's account with `who` kept
    /// alive. Returns the new kitty's identifier.
    pub fn create<P: Currency>(&mut self, pay: &mut P, who: AccountId, name: KittyName, entropy: &Entropy) -> (r:
        Result<KittyId, Error>)
        requires
            old(self)@.wf(),
        ensures
            final(self)@.wf(),
            old(self)@.next_kitty_id == KittyId::MAX ==> r == Err::<KittyId, Error>(
                Error::IdSpaceExhausted,
            ),
            old(self)@.next_kitty_id < KittyId::MAX ==> r == paid(
                old(pay).transfer_outcome(who, old(self)@.pallet_account, old(self)@.kitty_price, true),
                old(self)@.next_kitty_id,
            ),
            r is Ok ==> old(pay).balance(who) >= old(self)@.kitty_price + old(pay).minimum_balance(),
            r is Err ==> final(self)@ == old(self)@ && same_balances(*old(pay), *final(pay)),
            r matches Ok(id) ==> {
                &&& old(self)@.minted(final(self)@, id, who)
                &&& final(self)@.kitties[id].name == name
                &&& final(self)@.kitties[id].dna@ == blake2_128_of(
                    seed_payload(entropy.seed@, who, entropy.extrinsic_index),
                )
                &&& final(self)@.parents == old(self)@.parents
                &&& final(self)@.events == old(self)@.events.push(
                    Event::KittyCreated { who, kitty_id: id, kitty: final(self)@.kitties[id] },
                )
                &&& moved(
                    *old(pay),
                    *final(pay),
                    who,
                    old(self)@.pallet_account,
                    old(self)@.kitty_price as nat,
                )
            },
    {
        let kitty_id = match self.get_next_kitty_id() {
            Ok(id) => id,
            Err(e) => return Err(e),
        };
        let dna = random_value(&entropy.seed, who, entropy.extrinsic_index);
        let kitty = Kitty { dna, name };
        match pay.transfer(who, self.pallet_account, self.kitty_price, true) {
            Ok(()) => {},
            Err(e) => {
                self.next_kitty_id = kitty_id;
                return Err(Error::Payment(e));
            },
        }
        self.kitties.insert(kitty_id, kitty);
        self.owners.insert(kitty_id, who);
        self.events.push(Event::KittyCreated { who, kitty_id, kitty });
        assert(self@.kitties.dom() =~= self@.owners.dom());
        Ok(kitty_id)
    }

    /// Breeds a kitty named `name` for `who` from two distinct existing kitties,
    /// mixing their codes under a selector drawn from `entropy`, charging the
    /// price to the ledger's account with `who` kept alive, and recording the
    /// parents. Returns the new kitty's identifier.
    pub fn breed<P: Currency>(
        &mut self,
        pay: &mut P,
        who: AccountId,
        kitty_id_1: KittyId,
        kitty_id_2: KittyId,
        name: KittyName,
        entropy: &Entropy,
    ) -> (r: Result<KittyId, Error>)
        requires
            old(self)@.wf(),
        ensures
            final(self)@.wf(),
            kitty_id_1 == kitty_id_2 ==> r == Err::<KittyId, Error>(Error::SameKittyId),
            kitty_id_1 != kitty_id_2 && !(old(self)@.kitties.contains_key(kitty_id_1)
                && old(self)@.kitties.contains_key(kitty_id_2)) ==> r == Err::<KittyId, Error>(
                Error::InvalidKittyId,
            ),
            kitty_id_1 != kitty_id_2 && old(self)@.kitties.contains_key(kitty_id_1)
                && old(self)@.kitties.contains_key(kitty_id_2) && old(self)@.next_kitty_id
                == KittyId::MAX ==> r == Err::<KittyId, Error>(Error::IdSpaceExhausted),
            kitty_id_1 != kitty_id_2 && old(self)@.kitties.contains_key(kitty_id_1)
                && old(self)@.kitties.contains_key(kitty_id_2) && old(self)@.next_kitty_id
                < KittyId::MAX ==> r == paid(
                old(pay).transfer_outcome(who, old(self)@.pallet_account, old(self)@.kitty_price, true),
                old(self)@.next_kitty_id,
            ),
            r is Ok ==> old(pay).balance(who) >= old(self)@.kitty_price + old(pay).minimum_balance(),
            r is Err ==> final(self)@ == old(self)@ && same_balances(*old(pay), *final(pay)),
            r matches Ok(id) ==> {
                &&& old(self)@.minted(final(self)@, id, who)
                &&& final(self)@.kitties[id].name == name
                &&& forall|i: int|
                    0 <= i < 16 ==> #[trigger] final(self)@.kitties[id].dna@[i] == mix_byte(
                        old(self)@.kitties[kitty_id_1].dna@[i],
                        old(self)@.kitties[kitty_id_2].dna@[i],
                        blake2_128_of(seed_payload(entropy.seed@, who, entropy.extrinsic_index))[i],
                    )
                &&& final(self)@.parents == old(self)@.parents.insert(id, (kitty_id_1, kitty_id_2))
                &&& final(self)@.events == old(self)@.events.push(
                    Event::KittyBred { who, kitty_id: id, kitty: final(self)@.kitties[id] },
                )
                &&& moved(
                    *old(pay),
                    *final(pay),
                    who,
                    old(self)@.pallet_account,
                    old(self)@.kitty_price as nat,
                )
            },
    {
        if kitty_id_1 == kitty_id_2 {
            return Err(Error::SameKittyId);
        }
        let kitty_1 = match self.kitties.get(&kitty_id_1) {
            Some(k) => *k,
            None => return Err(Error::InvalidKittyId),
        };
        let kitty_2 = match self.kitties.get(&kitty_id_2) {
            Some(k) => *k,
            None => return Err(Error::InvalidKittyId),
        };
        let kitty_id = match self.get_next_kitty_id() {
            Ok(id) => id,
            Err(e) => return Err(e),
        };
        let selector = random_value(&entropy.seed, who, entropy.extrinsic_index);
        let dna = mix_dna(&kitty_1.dna, &kitty_2.dna, &selector);
        let kitty = Kitty { dna, name };
        match pay.transfer(who, self.pallet_account, self.kitty_price, true) {
            Ok(()) => {},
            Err(e) => {
                self.next_kitty_id = kitty_id;
                return Err(Error::Payment(e));
            },
        }
        self.kitties.insert(kitty_id, kitty);
        self.owners.insert(kitty_id, who);
        self.parents.insert(kitty_id, (kitty_id_1, kitty_id_2));
        self.events.push(Event::KittyBred { who, kitty_id, kitty });
        assert(self@.kitties.dom() =~= self@.owners.dom());
        Ok(kitty_id)
    }

    /// Hands kitty `kitty_id` from its owner `who` to `recipient`. A listing
    /// of the kitty stays as it is.
    pub fn transfer(&mut self, who: AccountId, recipient: AccountId, kitty_id: KittyId) -> (r: Result<
        (),
        Error,
    >)
        requires
            old(self)@.wf(),
        ensures
            final(self)@.wf(),
            !old(self)@.kitties.contains_key(kitty_id) ==> r == Err::<(), Error>(Error::InvalidKittyId),
            old(self)@.kitties.contains_key(kitty_id) && old(self)@.owners[kitty_id] != who ==> r
                == Err::<(), Error>(Error::NotOwner),
            old(self)@.kitties.contains_key(kitty_id) && old(self)@.owners[kitty_id] == who ==> r is Ok,
            r is Err ==> final(self)@ == old(self)@,
            r is Ok ==> {
                &&& old(self)@.owner_set(final(self)@, kitty_id, recipient)
                &&& final(self)@.on_sale == old(self)@.on_sale
                &&& final(self)@.events == old(self)@.events.push(
                    Event::KittyTransferred { who, recipient, kitty_id },
                )
            },
    {
        if !self.kitties.contains_key(&kitty_id) {
            return Err(Error::InvalidKittyId);
        }
        let owner = match self.owners.get(&kitty_id) {
            Some(o) => *o,
            None => return Err(Error::NotOwner),
        };
        if owner != who {
            return Err(Error::NotOwner);
        }
        self.owners.insert(kitty_id, recipient);
        self.events.push(Event::KittyTransferred { who, recipient, kitty_id });
        assert(self@.kitties.dom() =~= self@.owners.dom());
        assert(self@.kitties == old(self)@.kitties);
        assert(self@.parents == old(self)@.parents);
        assert(self@.on_sale == old(self)@.on_sale);
        Ok(())
    }

    /// Lists kitty `kitty_id` for sale at the ledger's price, on behalf of its
    /// owner `who`.
    pub fn sale(&mut self, who: AccountId, kitty_id: KittyId) -> (r: Result<(), Error>)
        requires
            old(self)@.wf(),
        ensures
            final(self)@.wf(),
            r == old(self)@.sale_outcome(who, kitty_id),
            r is Err ==> final(self)@ == old(self)@,
            r is Ok ==> final(self)@ == old(self)@.listed(who, kitty_id),
    {
        if !self.kitties.contains_key(&kitty_id) {
            return Err(Error::InvalidKittyId);
        }
        match self.owners.get(&kitty_id) {
            Some(o) => {
                if *o != who {
                    return Err(Error::NotOwner);
                }
            },
            None => return Err(Error::NotOwner),
        }
        if self.on_sale.contains(&kitty_id) {
            return Err(Error::AlreadyOnSale);
        }
        self.on_sale.insert(kitty_id);
        self.events.push(Event::KittyOnSale { who, kitty_id });
        assert(self@.kitties == old(self)@.kitties);
        assert(self@.owners == old(self)@.owners);
        assert(self@.parents == old(self)@.parents);
        assert forall|id: KittyId| #[trigger] self@.on_sale.contains(id) implies self@.kitties.contains_key(
            id,
        ) by {
            if id != kitty_id {
                assert(old(self)@.on_sale.contains(id));
            }
        }
        Ok(())
    }

    /// Buys listed kitty `kitty_id` for `who`: the price moves from `who` to
    /// the owner with `who` kept alive, then the kitty changes hands and leaves
    /// the listing, all at once or not at all.
    pub fn buy<P: Currency>(&mut self, pay: &mut P, who: AccountId, kitty_id: KittyId) -> (r: Result<
        (),
        Error,
    >)
        requires
            old(self)@.wf(),
        ensures
            final(self)@.wf(),
            old(self)@.buy_refusal(who, kitty_id) matches Some(e) ==> r == Err::<(), Error>(e),
            old(self)@.buy_refusal(who, kitty_id) is None ==> r == paid(
                old(pay).transfer_outcome(who, old(self)@.owners[kitty_id], old(self)@.kitty_price, true),
                (),
            ),
            r is Ok ==> old(pay).balance(who) >= old(self)@.kitty_price + old(pay).minimum_balance(),
            r is Err ==> final(self)@ == old(self)@ && same_balances(*old(pay), *final(pay)),
            r is Ok ==> {
                &&& final(self)@ == old(self)@.bought(who, kitty_id)
                &&& moved(
                    *old(pay),
                    *final(pay),
                    who,
                    old(self)@.owners[kitty_id],
                    old(self)@.kitty_price as nat,
                )
            },
    {
        if !self.kitties.contains_key(&kitty_id) {
            return Err(Error::InvalidKittyId);
        }
        let owner = match self.owners.get(&kitty_id) {
            Some(o) => *o,
            None => return Err(Error::NoOwner),
        };
        if owner == who {
            return Err(Error::AlreadyOwned);
        }
        if !self.on_sale.contains(&kitty_id) {
            return Err(Error::NotOnSale);
        }
        match pay.transfer(who, owner, self.kitty_price, true) {
            Ok(()) => {},
            Err(e) => return Err(Error::Payment(e)),
        }
        self.owners.insert(kitty_id, who);
        self.on_sale.remove(&kitty_id);
        self.events.push(Event::KittyBought { who, kitty_id });
        assert(self@.kitties.dom() =~= self@.owners.dom());
        assert(self@.kitties == old(self)@.kitties);
        assert(self@.parents == old(self)@.parents);
        assert forall|id: KittyId| #[trigger] self@.on_sale.contains(id) implies self@.kitties.contains_key(
            id,
        ) by {
            if id != kitty_id {
                assert(old(self)@.on_sale.contains(id));
            }
        }
        Ok(())
    }

    /// Moves the identifier counter forward to `id`; identifiers below it
    /// are never handed out.
    pub fn set_next_kitty_id(&mut self, id: KittyId)
        requires
            old(self)@.wf(),
            old(self)@.next_kitty_id <= id,
        ensures
            final(self)@.wf(),
            final(self)@ == (PalletView { next_kitty_id: id, ..old(self)@ }),
    {
        self.next_kitty_id = id;
    }

    /// The identifier that the next kitty gets.
    pub fn next_kitty_id(&self) -> (r: KittyId)
        ensures
            r == self@.next_kitty_id,
    {
        self.next_kitty_id
    }

    /// The record of kitty `kitty_id`, if it exists.
    pub fn kitties(&self, kitty_id: KittyId) -> (r: Option<Kitty>)
        ensures
            r == (if self@.kitties.contains_key(kitty_id) {
                Some(self@.kitties[kitty_id])
            } else {
                None
            }),
    {
        match self.kitties.get(&kitty_id) {
            Some(k) => Some(*k),
            None => None,
        }
    }

    /// The owner of kitty `kitty_id`, if it exists.
    pub fn kitty_owner(&self, kitty_id: KittyId) -> (r: Option<AccountId>)
        ensures
            r == (if self@.owners.contains_key(kitty_id) {
                Some(self@.owners[kitty_id])
            } else {
                None
            }),
    {
        match self.owners.get(&kitty_id) {
            Some(o) => Some(*o),
            None => None,
        }
    }

    /// The parents of kitty `kitty_id`, if it was bred.
    pub fn kitty_parents(&self, kitty_id: KittyId) -> (r: Option<(KittyId, KittyId)>)
        ensures
            r == (if self@.parents.contains_key(kitty_id) {
                Some(self@.parents[kitty_id])
            } else {
                None
            }),
    {
        match self.parents.get(&kitty_id) {
            Some(p) => Some(*p),
            None => None,
        }
    }

    /// `Some(())` where kitty `kitty_id` is listed for sale.
    pub fn kitty_on_sale(&self, kitty_id: KittyId) -> (r: Option<()>)
        ensures
            r is Some <==> self@.on_sale.contains(kitty_id),
    {
        if self.on_sale.contains(&kitty_id) {
            Some(())
        } else {
            None
        }
    }

    /// The events reported so far, oldest first.
    pub fn events(&self) -> (r: &Vec<Event>)
        ensures
            r@ == self@.events,
    {
        &self.events
    }

    /// The price of minting, breeding and buying a kitty.
    pub fn kitty_price(&self) -> (r: Balance)
        ensures
            r == self@.kitty_price,
    {
        self.kitty_price
    }

    /// The account that minting and breeding fees are paid to.
    pub fn pallet_account(&self) -> (r: AccountId)
        ensures
            r == self@.pallet_account,
    {
        self.pallet_account
    }
}

} // verus!
