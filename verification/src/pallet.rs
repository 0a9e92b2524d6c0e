//! The ledger itself: the counter, the kitties, their owners and listings, and
//! the five operations on them.

use crate::genome::{crossover, crossover_spec, random_value, random_value_spec, Kitty};
use crate::host::{
    same_but_funds, transferred, AccountId, Balance, Config, Funds, InsufficientBalance,
    KittyIndex,
};
use crate::laws::moves_follow_ownership;
use crate::state::{
    moves, owned_by, restaked, staked, stakes_covered, step, Error, Event, Moment, State,
};
use std::collections::HashMap;
use vstd::prelude::*;

verus! {

broadcast use vstd::std_specs::hash::group_hash_axioms;

/// The genome that the host's seed and call index give `who` right now.
pub open spec fn fresh_genome<T: Config>(host: &T, who: AccountId) -> Seq<u8> {
    random_value_spec(host.seed().0@, host.seed().1, who, host.call_index())
}

/// How minting a kitty for `who` ends: refused while the counter stands at
/// the largest index, else refused unless the host lets `who` reserve the
/// stake.
pub open spec fn mint_outcome<T: Config>(state: State, host: &T, who: AccountId) -> Result<
    (),
    Error,
> {
    if state.count == Some(KittyIndex::MAX) {
        Err(Error::KittiesCountOverflow)
    } else if !host.would_reserve(host.funds(), who, host.stake()) {
        Err(Error::NotEnoughBalanceForStaking)
    } else {
        Ok(())
    }
}

/// How a transfer of kitty `id` from `who` to `new_owner` ends: refused unless
/// `who` owns the kitty, else refused unless the host lets `new_owner` reserve
/// the stake.
pub open spec fn transfer_outcome<T: Config>(
    state: State,
    host: &T,
    who: AccountId,
    new_owner: AccountId,
    id: KittyIndex,
) -> Result<(), Error> {
    if !state.is_owner(who, id) {
        Err(Error::NotOwner)
    } else if !host.would_reserve(host.funds(), new_owner, host.stake()) {
        Err(Error::NotEnoughBalanceForStaking)
    } else {
        Ok(())
    }
}

/// How breeding from the kitties `id_1` and `id_2` ends for `who`: refused
/// for one and the same parent, then for a parent that does not exist, then
/// as minting is.
pub open spec fn breed_outcome<T: Config>(
    state: State,
    host: &T,
    who: AccountId,
    id_1: KittyIndex,
    id_2: KittyIndex,
) -> Result<(), Error> {
    if id_1 == id_2 {
        Err(Error::SameParentIndex)
    } else if !state.kitties.contains_key(id_1) || !state.kitties.contains_key(id_2) {
        Err(Error::InvalidKittyIndex)
    } else {
        mint_outcome(state, host, who)
    }
}

/// How listing kitty `id` ends for `who`: refused unless `who` owns it.
pub open spec fn sell_outcome(state: State, who: AccountId, id: KittyIndex) -> Result<(), Error> {
    if !state.is_owner(who, id) {
        Err(Error::NotOwner)
    } else {
        Ok(())
    }
}

/// Why `buyer` cannot start to pay for kitty `id`, if anything stands in the
/// way: no such kitty, the buyer owns it, it has no price, the buyer's free
/// balance does not exceed price and stake together, or the host does not let
/// the buyer reserve the stake.
pub open spec fn buy_refusal<T: Config>(
    state: State,
    host: &T,
    buyer: AccountId,
    id: KittyIndex,
) -> Option<Error> {
    if !state.owner.contains_key(id) {
        Some(Error::InvalidKittyIndex)
    } else if state.owner[id] == buyer {
        Some(Error::BuyerIsOwner)
    } else if state.price(id) is None {
        Some(Error::NotForSale)
    } else if host.funds()[buyer].free <= state.price(id).unwrap() + host.stake() {
        Some(Error::NotEnoughBalanceForBuying)
    } else if !host.would_reserve(host.funds(), buyer, host.stake()) {
        Some(Error::NotEnoughBalanceForStaking)
    } else {
        None
    }
}

/// The balances once the stakes for a sale of kitty `id` to `buyer` have
/// moved and the price is still to be paid.
pub open spec fn funds_before_payment<T: Config>(
    state: State,
    host: &T,
    buyer: AccountId,
    id: KittyIndex,
) -> Map<AccountId, Funds> {
    restaked(host.funds(), state.owner[id], buyer, host.stake() as nat)
}

/// How a purchase of kitty `id` ends for `buyer`: refused where something
/// stands in the way of paying, else refused unless the host lets the buyer
/// pay the price to the seller once the stakes have moved.
pub open spec fn buy_outcome<T: Config>(
    state: State,
    host: &T,
    buyer: AccountId,
    id: KittyIndex,
) -> Result<(), Error> {
    match buy_refusal(state, host, buyer, id) {
        Some(e) => Err(e),
        None => if host.would_transfer(
            funds_before_payment(state, host, buyer, id),
            buyer,
            state.owner[id],
            state.price(id).unwrap(),
        ) {
            Ok(())
        } else {
            Err(Error::NotEnoughBalanceForBuying)
        },
    }
}

/// The ledger of kitties on a host `T`.
pub struct Pallet<T: Config> {
    host: T,
    count: Option<KittyIndex>,
    kitties: HashMap<KittyIndex, Kitty>,
    owner: HashMap<KittyIndex, AccountId>,
    list_for_sale: HashMap<KittyIndex, Option<Balance>>,
    events: Vec<Event>,
}

impl<T: Config> View for Pallet<T> {
    type V = State;

    closed spec fn view(&self) -> State {
        State {
            count: self.count,
            kitties: self.kitties@.map_values(|kitty: Kitty| kitty@),
            owner: self.owner@,
            list_for_sale: self.list_for_sale@,
            events: self.events@,
        }
    }
}

impl<T: Config> Pallet<T> {
    /// Whether the ledger's state is well formed.
    pub open spec fn wf(&self) -> bool {
        self@.wf()
    }

    /// The ledger and the balances of its host as they stand.
    pub open spec fn moment(&self) -> Moment {
        Moment { state: self@, funds: self.host().funds() }
    }

    /// Whether every account has at least one stake reserved for each kitty
    /// it owns.
    pub open spec fn stakes_covered(&self) -> bool {
        stakes_covered(self@, self.host().funds(), self.host().stake() as nat)
    }

    /// The host that keeps the balances.
    pub closed spec fn spec_host(&self) -> &T {
        &self.host
    }

    /// The host that keeps the balances.
    #[verifier::when_used_as_spec(spec_host)]
    pub fn host(&self) -> (host: &T)
        ensures
            host == self.host(),
    {
        &self.host
    }

    /// The host, to change it from outside the ledger: to fund an account, or
    /// to set the seed.
    pub fn host_mut(&mut self) -> (host: &mut T)
        ensures
            *host == old(self).host(),
            final(self).host() == *final(host),
            final(self)@ == old(self)@,
    {
        &mut self.host
    }

    /// An empty ledger on `host`.
    pub fn new(host: T) -> (pallet: Self)
        ensures
            pallet.wf(),
            pallet@ == State::empty(),
            pallet.host() == host,
            pallet.stakes_covered(),
    {
        let pallet = Pallet {
            host,
            count: None,
            kitties: HashMap::new(),
            owner: HashMap::new(),
            list_for_sale: HashMap::new(),
            events: Vec::new(),
        };
        proof {
            assert(pallet@.kitties =~= Map::empty());
            assert forall|who: AccountId| owned_by(pallet@, who) =~= Set::empty() by {}
        }
        pallet
    }

    /// An empty ledger on `host` whose first kitty gets the index `count`.
    pub fn with_kitties_count(host: T, count: KittyIndex) -> (pallet: Self)
        ensures
            pallet.wf(),
            pallet@ == (State { count: Some(count), ..State::empty() }),
            pallet.host() == host,
            pallet.stakes_covered(),
    {
        let pallet = Pallet {
            host,
            count: Some(count),
            kitties: HashMap::new(),
            owner: HashMap::new(),
            list_for_sale: HashMap::new(),
            events: Vec::new(),
        };
        proof {
            assert(pallet@.kitties =~= Map::empty());
            assert forall|who: AccountId| owned_by(pallet@, who) =~= Set::empty() by {}
        }
        pallet
    }

    /// The counter: the next unused index, or nothing before the first kitty.
    pub fn kitties_count(&self) -> (count: Option<KittyIndex>)
        ensures
            count == self@.count,
    {
        self.count
    }

    /// The genome of kitty `id`.
    pub fn kitties(&self, id: KittyIndex) -> (kitty: Option<Kitty>)
        ensures
            kitty is Some <==> self@.kitties.contains_key(id),
            kitty matches Some(k) ==> k@ == self@.kitties[id],
    {
        match self.kitties.get(&id) {
            Some(kitty) => Some(*kitty),
            None => None,
        }
    }

    /// The owner of kitty `id`.
    pub fn owner(&self, id: KittyIndex) -> (owner: Option<AccountId>)
        ensures
            owner == self@.owner_of(id),
    {
        match self.owner.get(&id) {
            Some(owner) => Some(*owner),
            None => None,
        }
    }

    /// The price of kitty `id`, if it is for sale.
    pub fn kitties_list_for_sales(&self, id: KittyIndex) -> (price: Option<Balance>)
        ensures
            price == self@.price(id),
    {
        match self.list_for_sale.get(&id) {
            Some(price) => *price,
            None => None,
        }
    }

    /// Every event so far, oldest first.
    pub fn events(&self) -> (events: &[Event])
        ensures
            events@ == self@.events,
    {
        self.events.as_slice()
    }

    /// Derives a genome for `sender` from the host's seed and call index.
    pub fn random_value(&self, sender: AccountId) -> (dna: [u8; 16])
        ensures
            dna@ == fresh_genome(self.host(), sender),
    {
        let (seed, known_since) = self.host.random_seed();
        let index = self.host.extrinsic_index();
        random_value(&seed, known_since, sender, index)
    }

    /// Mints a kitty with genome `dna` for `owner` under the next index:
    /// the stake is reserved first, then the kitty, its owner and the advanced
    /// counter are recorded. A refusal changes nothing.
    pub fn new_kitty_with_stake(&mut self, owner: AccountId, dna: [u8; 16]) -> (r: Result<
        (),
        Error,
    >)
        requires
            old(self).wf(),
        ensures
            final(self).wf(),
            step(old(self)@, final(self)@),
            r == mint_outcome(old(self)@, old(self).host(), owner),
            r is Ok ==> final(self)@ == old(self)@.minted(owner, dna@),
            r is Ok ==> final(self).host().funds() == staked(
                old(self).host().funds(),
                owner,
                old(self).host().stake() as nat,
            ),
            r is Ok ==> old(self).host().stake() <= old(self).host().funds()[owner].free,
            r is Err ==> final(self)@ == old(self)@,
            r is Err ==> final(self).host().funds() == old(self).host().funds(),
            same_but_funds(old(self).host(), final(self).host()),
            moves(old(self).moment(), final(self).moment(), old(self).host().stake() as nat),
            old(self).stakes_covered() ==> final(self).stakes_covered(),
    {
        let kitty_id: KittyIndex = match self.count {
            Some(id) => {
                if id == KittyIndex::MAX {
                    return Err(Error::KittiesCountOverflow);
                }
                id
            },
            None => 0,
        };
        let stake = self.host.stake_for_each_kitty();
        if self.host.reserve(owner, stake).is_err() {
            return Err(Error::NotEnoughBalanceForStaking);
        }
        self.kitties.insert(kitty_id, Kitty(dna));
        self.owner.insert(kitty_id, owner);
        self.count = Some(kitty_id + 1);
        self.events.push(Event::KittyCreate(owner, kitty_id));
        proof {
            assert(self@.kitties =~= old(self)@.kitties.insert(kitty_id, dna@));
            assert(self@ == old(self)@.minted(owner, dna@));
            assert(self.moment() == old(self).moment().minted(
                owner,
                dna@,
                old(self).host().stake() as nat,
            ));
            if old(self).stakes_covered() {
                moves_follow_ownership(
                    old(self).moment(),
                    self.moment(),
                    old(self).host().stake() as nat,
                );
            }
        }
        Ok(())
    }

    /// Mints a kitty with a freshly derived genome for `who`.
    pub fn create(&mut self, who: AccountId) -> (r: Result<(), Error>)
        requires
            old(self).wf(),
        ensures
            final(self).wf(),
            step(old(self)@, final(self)@),
            r == mint_outcome(old(self)@, old(self).host(), who),
            r is Ok ==> final(self)@ == old(self)@.minted(
                who,
                fresh_genome(old(self).host(), who),
            ),
            r is Ok ==> final(self).host().funds() == staked(
                old(self).host().funds(),
                who,
                old(self).host().stake() as nat,
            ),
            r is Ok ==> old(self).host().stake() <= old(self).host().funds()[who].free,
            r is Err ==> final(self)@ == old(self)@,
            r is Err ==> final(self).host().funds() == old(self).host().funds(),
            same_but_funds(old(self).host(), final(self).host()),
            moves(old(self).moment(), final(self).moment(), old(self).host().stake() as nat),
            old(self).stakes_covered() ==> final(self).stakes_covered(),
    {
        let dna = self.random_value(who);
        self.new_kitty_with_stake(who, dna)
    }

    /// Hands kitty `kitty_id` over from `who` to `new_owner`: the new owner's
    /// stake is reserved, then the caller's is released, then the owner is
    /// recorded. A refusal changes nothing.
    pub fn transfer(&mut self, who: AccountId, new_owner: AccountId, kitty_id: KittyIndex) -> (r:
        Result<(), Error>)
        requires
            old(self).wf(),
        ensures
            final(self).wf(),
            step(old(self)@, final(self)@),
            r == transfer_outcome(old(self)@, old(self).host(), who, new_owner, kitty_id),
            r is Ok ==> final(self)@ == old(self)@.handed_over(who, new_owner, kitty_id),
            r is Ok ==> final(self).host().funds() == restaked(
                old(self).host().funds(),
                who,
                new_owner,
                old(self).host().stake() as nat,
            ),
            r is Ok ==> old(self).host().stake() <= old(self).host().funds()[new_owner].free,
            r is Err ==> final(self)@ == old(self)@,
            r is Err ==> final(self).host().funds() == old(self).host().funds(),
            same_but_funds(old(self).host(), final(self).host()),
            moves(old(self).moment(), final(self).moment(), old(self).host().stake() as nat),
            old(self).stakes_covered() ==> final(self).stakes_covered(),
    {
        match self.owner.get(&kitty_id) {
            Some(owner) => {
                if *owner != who {
                    return Err(Error::NotOwner);
                }
            },
            None => {
                return Err(Error::NotOwner);
            },
        }
        let stake = self.host.stake_for_each_kitty();
        if self.host.reserve(new_owner, stake).is_err() {
            return Err(Error::NotEnoughBalanceForStaking);
        }
        self.host.unreserve(who, stake);
        self.owner.insert(kitty_id, new_owner);
        self.events.push(Event::KittyTransfer(who, new_owner, kitty_id));
        proof {
            assert(self@.owner.dom() =~= old(self)@.owner.dom());
            assert(self@ == old(self)@.handed_over(who, new_owner, kitty_id));
            assert(self.moment() == old(self).moment().handed_over(
                who,
                new_owner,
                kitty_id,
                old(self).host().stake() as nat,
            ));
            if old(self).stakes_covered() {
                moves_follow_ownership(
                    old(self).moment(),
                    self.moment(),
                    old(self).host().stake() as nat,
                );
            }
        }
        Ok(())
    }

    /// Breeds a kitty for `who` from two different parents: each bit of the
    /// child's genome comes from the first parent where a freshly derived
    /// selector has a 1, from the second where it has a 0. The child is
    /// minted as any kitty is.
    pub fn breed(&mut self, who: AccountId, kitty_id_1: KittyIndex, kitty_id_2: KittyIndex) -> (r:
        Result<(), Error>)
        requires
            old(self).wf(),
        ensures
            final(self).wf(),
            step(old(self)@, final(self)@),
            r == breed_outcome(old(self)@, old(self).host(), who, kitty_id_1, kitty_id_2),
            r is Ok ==> final(self)@ == old(self)@.minted(
                who,
                crossover_spec(
                    old(self)@.kitties[kitty_id_1],
                    old(self)@.kitties[kitty_id_2],
                    fresh_genome(old(self).host(), who),
                ),
            ),
            r is Ok ==> final(self).host().funds() == staked(
                old(self).host().funds(),
                who,
                old(self).host().stake() as nat,
            ),
            r is Ok ==> old(self).host().stake() <= old(self).host().funds()[who].free,
            r is Err ==> final(self)@ == old(self)@,
            r is Err ==> final(self).host().funds() == old(self).host().funds(),
            same_but_funds(old(self).host(), final(self).host()),
            moves(old(self).moment(), final(self).moment(), old(self).host().stake() as nat),
            old(self).stakes_covered() ==> final(self).stakes_covered(),
    {
        if kitty_id_1 == kitty_id_2 {
            return Err(Error::SameParentIndex);
        }
        let kitty_1 = match self.kitties(kitty_id_1) {
            Some(kitty) => kitty,
            None => {
                return Err(Error::InvalidKittyIndex);
            },
        };
        let kitty_2 = match self.kitties(kitty_id_2) {
            Some(kitty) => kitty,
            None => {
                return Err(Error::InvalidKittyIndex);
            },
        };
        let selector = self.random_value(who);
        let new_dna = crossover(&kitty_1.0, &kitty_2.0, &selector);
        self.new_kitty_with_stake(who, new_dna)
    }

    /// Sets the price of kitty `kitty_id`, or takes it off the market with
    /// `None`. Only its owner may. Whatever was listed before is replaced.
    pub fn sell(&mut self, who: AccountId, kitty_id: KittyIndex, price: Option<Balance>) -> (r:
        Result<(), Error>)
        requires
            old(self).wf(),
        ensures
            final(self).wf(),
            step(old(self)@, final(self)@),
            r == sell_outcome(old(self)@, who, kitty_id),
            r is Ok ==> final(self)@ == old(self)@.listed(who, kitty_id, price),
            r is Err ==> final(self)@ == old(self)@,
            final(self).host() == old(self).host(),
            moves(old(self).moment(), final(self).moment(), old(self).host().stake() as nat),
            old(self).stakes_covered() ==> final(self).stakes_covered(),
    {
        match self.owner.get(&kitty_id) {
            Some(owner) => {
                if *owner != who {
                    return Err(Error::NotOwner);
                }
            },
            None => {
                return Err(Error::NotOwner);
            },
        }
        self.list_for_sale.insert(kitty_id, price);
        self.events.push(Event::KittySell(who, kitty_id, price));
        proof {
            assert(self@ == old(self)@.listed(who, kitty_id, price));
            assert(self.moment() == old(self).moment().listed(who, kitty_id, price));
            if old(self).stakes_covered() {
                moves_follow_ownership(
                    old(self).moment(),
                    self.moment(),
                    old(self).host().stake() as nat,
                );
            }
        }
        Ok(())
    }

    /// Sells kitty `kitty_id` to `buyer` at its listed price. Once nothing
    /// stands in the way, the buyer's stake is reserved, the seller's is
    /// released and the price is paid; only then is the listing cleared and
    /// the buyer recorded as owner. The stakes move under a checkpoint of the
    /// host: where the host refuses the payment they are taken back, so that
    /// a refusal changes nothing, neither in the ledger nor in the balances.
    pub fn buy(&mut self, buyer: AccountId, kitty_id: KittyIndex) -> (r: Result<(), Error>)
        requires
            old(self).wf(),
        ensures
            final(self).wf(),
            step(old(self)@, final(self)@),
            r == buy_outcome(old(self)@, old(self).host(), buyer, kitty_id),
            r is Ok ==> final(self)@ == old(self)@.sold(
                old(self)@.owner[kitty_id],
                buyer,
                kitty_id,
            ),
            r is Ok ==> final(self).host().funds() == transferred(
                funds_before_payment(old(self)@, old(self).host(), buyer, kitty_id),
                buyer,
                old(self)@.owner[kitty_id],
                old(self)@.price(kitty_id).unwrap() as nat,
            ),
            r is Ok ==> old(self)@.price(kitty_id).unwrap() <= funds_before_payment(
                old(self)@,
                old(self).host(),
                buyer,
                kitty_id,
            )[buyer].free,
            r is Err ==> final(self)@ == old(self)@,
            r is Err ==> final(self).host().funds() == old(self).host().funds(),
            same_but_funds(old(self).host(), final(self).host()),
            moves(old(self).moment(), final(self).moment(), old(self).host().stake() as nat),
            old(self).stakes_covered() ==> final(self).stakes_covered(),
    {
        let owner = match self.owner.get(&kitty_id) {
            Some(owner) => *owner,
            None => {
                return Err(Error::InvalidKittyIndex);
            },
        };
        if buyer == owner {
            return Err(Error::BuyerIsOwner);
        }
        let amount = match self.kitties_list_for_sales(kitty_id) {
            Some(amount) => amount,
            None => {
                return Err(Error::NotForSale);
            },
        };
        let buyer_balance = self.host.free_balance(buyer);
        let stake = self.host.stake_for_each_kitty();
        if amount > Balance::MAX - stake || buyer_balance <= amount + stake {
            return Err(Error::NotEnoughBalanceForBuying);
        }
        self.host.checkpoint();
        if self.host.reserve(buyer, stake).is_err() {
            self.host.commit();
            proof {
                assert(self.host().checkpoints() =~= old(self).host().checkpoints());
                assert(self.moment() == old(self).moment());
            }
            return Err(Error::NotEnoughBalanceForStaking);
        }
        self.host.unreserve(owner, stake);
        let paid = self.host.transfer(buyer, owner, amount);
        if paid.is_err() {
            self.host.rollback();
        } else {
            self.host.commit();
        }
        let r = self.settle(owner, buyer, kitty_id, paid);
        proof {
            assert(self.host().checkpoints() =~= old(self).host().checkpoints());
            if r is Ok {
                assert(self.moment() == old(self).moment().sold(
                    owner,
                    buyer,
                    kitty_id,
                    amount as nat,
                    old(self).host().stake() as nat,
                ));
            } else {
                assert(self.moment() == old(self).moment());
            }
            if old(self).stakes_covered() {
                moves_follow_ownership(
                    old(self).moment(),
                    self.moment(),
                    old(self).host().stake() as nat,
                );
            }
        }
        r
    }

    /// Ends a sale of kitty `kitty_id` once the payment was tried: where it
    /// went through, the listing is cleared and `buyer` is recorded as owner;
    /// where it was refused, nothing is changed.
    fn settle(
        &mut self,
        seller: AccountId,
        buyer: AccountId,
        kitty_id: KittyIndex,
        paid: Result<(), InsufficientBalance>,
    ) -> (r: Result<(), Error>)
        requires
            old(self).wf(),
            old(self)@.is_owner(seller, kitty_id),
        ensures
            final(self).wf(),
            final(self).host() == old(self).host(),
            paid is Ok ==> r == Ok::<(), Error>(()) && final(self)@ == old(self)@.sold(
                seller,
                buyer,
                kitty_id,
            ),
            paid is Err ==> r == Err::<(), Error>(Error::NotEnoughBalanceForBuying) && final(self)@
                == old(self)@,
    {
        if paid.is_err() {
            return Err(Error::NotEnoughBalanceForBuying);
        }
        self.list_for_sale.insert(kitty_id, None);
        self.owner.insert(kitty_id, buyer);
        self.events.push(Event::KittyTransfer(seller, buyer, kitty_id));
        proof {
            assert(self@.owner.dom() =~= old(self)@.owner.dom());
            assert(self@ == old(self)@.sold(seller, buyer, kitty_id));
        }
        Ok(())
    }
}

} // verus!
