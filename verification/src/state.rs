//! The ledger as the contracts see it: the counter, the three maps and the
//! log of events, with the transitions that the operations make.

use crate::host::{transferred, AccountId, Balance, Funds, KittyIndex};
use vstd::prelude::*;

verus! {

/// What the ledger tells its observers.
#[derive(Clone, Copy, Debug, PartialEq, Eq)]
pub enum Event {
    /// A kitty was minted: its first owner and its index.
    KittyCreate(AccountId, KittyIndex),
    /// A kitty changed hands: the previous owner, the new owner and the index.
    KittyTransfer(AccountId, AccountId, KittyIndex),
    /// An owner set or cleared the price of a kitty.
    KittySell(AccountId, KittyIndex, Option<Balance>),
}

/// Why an operation was refused.
#[derive(Clone, Copy, Debug, PartialEq, Eq, Structural)]
pub enum Error {
    /// The counter stands at the largest index: no kitty can be minted.
    KittiesCountOverflow,
    /// The caller does not own the kitty.
    NotOwner,
    /// Both parents are the same kitty.
    SameParentIndex,
    /// No kitty has this index.
    InvalidKittyIndex,
    /// The buyer already owns the kitty.
    BuyerIsOwner,
    /// The kitty has no price.
    NotForSale,
    /// The host did not let the stake be reserved.
    NotEnoughBalanceForStaking,
    /// The buyer's free balance does not exceed price and stake together, or
    /// the host did not let the price be paid.
    NotEnoughBalanceForBuying,
}

/// The ledger's state.
pub struct State {
    /// The next unused index, once a kitty was minted or a start was set.
    pub count: Option<KittyIndex>,
    /// The genome of every kitty.
    pub kitties: Map<KittyIndex, Seq<u8>>,
    /// The owner of every kitty.
    pub owner: Map<KittyIndex, AccountId>,
    /// The listings: a price, or none for a kitty taken off the market.
    pub list_for_sale: Map<KittyIndex, Option<Balance>>,
    /// Every event so far, oldest first.
    pub events: Seq<Event>,
}

impl State {
    /// No kitties, no listings, no events, and a counter never set.
    pub open spec fn empty() -> State {
        State {
            count: None,
            kitties: Map::empty(),
            owner: Map::empty(),
            list_for_sale: Map::empty(),
            events: Seq::empty(),
        }
    }

    /// The index that the next kitty gets.
    pub open spec fn next_index(self) -> KittyIndex {
        match self.count {
            Some(index) => index,
            None => 0,
        }
    }

    /// Every kitty has a genome of sixteen bytes, exactly one owner and an
    /// index below the counter; only kitties are listed.
    pub open spec fn wf(self) -> bool {
        &&& self.owner.dom().finite()
        &&& self.kitties.dom() == self.owner.dom()
        &&& forall|id: KittyIndex| #[trigger]
            self.kitties.contains_key(id) ==> id < self.next_index() && self.kitties[id].len()
                == 16
        &&& forall|id: KittyIndex| #[trigger]
            self.list_for_sale.contains_key(id) ==> self.owner.contains_key(id)
    }

    /// Whether `who` owns kitty `id`.
    pub open spec fn is_owner(self, who: AccountId, id: KittyIndex) -> bool {
        self.owner.contains_key(id) && self.owner[id] == who
    }

    /// The owner of kitty `id`, if there is such a kitty.
    pub open spec fn owner_of(self, id: KittyIndex) -> Option<AccountId> {
        if self.owner.contains_key(id) {
            Some(self.owner[id])
        } else {
            None
        }
    }

    /// The genome of kitty `id`, if there is such a kitty.
    pub open spec fn genome_of(self, id: KittyIndex) -> Option<Seq<u8>> {
        if self.kitties.contains_key(id) {
            Some(self.kitties[id])
        } else {
            None
        }
    }

    /// The price of kitty `id`, if it is for sale.
    pub open spec fn price(self, id: KittyIndex) -> Option<Balance> {
        if self.list_for_sale.contains_key(id) {
            self.list_for_sale[id]
        } else {
            None
        }
    }

    /// After a kitty with genome `dna` was minted for `who` under the next
    /// index.
    pub open spec fn minted(self, who: AccountId, dna: Seq<u8>) -> State
        recommends
            self.next_index() < KittyIndex::MAX,
    {
        let id = self.next_index();
        State {
            count: Some((id + 1) as KittyIndex),
            kitties: self.kitties.insert(id, dna),
            owner: self.owner.insert(id, who),
            list_for_sale: self.list_for_sale,
            events: self.events.push(Event::KittyCreate(who, id)),
        }
    }

    /// After `from` handed kitty `id` over to `to`.
    pub open spec fn handed_over(self, from: AccountId, to: AccountId, id: KittyIndex) -> State {
        State {
            owner: self.owner.insert(id, to),
            events: self.events.push(Event::KittyTransfer(from, to, id)),
            ..self
        }
    }

    /// After `who` set the price of kitty `id`, or cleared it with `None`.
    pub open spec fn listed(self, who: AccountId, id: KittyIndex, price: Option<Balance>) -> State {
        State {
            list_for_sale: self.list_for_sale.insert(id, price),
            events: self.events.push(Event::KittySell(who, id, price)),
            ..self
        }
    }

    /// After `buyer` bought kitty `id` from `seller`: the listing is cleared
    /// and the kitty is the buyer's.
    pub open spec fn sold(self, seller: AccountId, buyer: AccountId, id: KittyIndex) -> State {
        State {
            list_for_sale: self.list_for_sale.insert(id, None),
            owner: self.owner.insert(id, buyer),
            events: self.events.push(Event::KittyTransfer(seller, buyer, id)),
            ..self
        }
    }
}

/// The kitties that `who` owns.
pub open spec fn owned_by(state: State, who: AccountId) -> Set<KittyIndex> {
    state.owner.dom().filter(|id: KittyIndex| state.owner[id] == who)
}

/// Every account has at least one stake reserved for each kitty it owns.
pub open spec fn stakes_covered(state: State, funds: Map<AccountId, Funds>, stake: nat) -> bool {
    forall|who: AccountId| #[trigger]
        funds[who].reserved >= stake * owned_by(state, who).len()
}

/// Between two moments, every account's reserved balance has changed by one
/// stake for each kitty it has gained and back by one for each it has given
/// away, and by nothing else.
pub open spec fn stakes_follow_ownership(
    pre: State,
    pre_funds: Map<AccountId, Funds>,
    post: State,
    post_funds: Map<AccountId, Funds>,
    stake: nat,
) -> bool {
    forall|who: AccountId| #[trigger]
        post_funds[who].reserved - pre_funds[who].reserved == stake * owned_by(post, who).len()
            - stake * owned_by(pre, who).len()
}

/// Whether `post` is `pre` with one more kitty, minted under the counter of
/// `pre`.
pub open spec fn mints(pre: State, post: State) -> bool {
    &&& pre.count != Some(KittyIndex::MAX)
    &&& exists|who: AccountId, dna: Seq<u8>| dna.len() == 16 && post == #[trigger] pre.minted(who, dna)
}

/// Whether one operation, carried out or refused, leads from `pre` to `post`.
pub open spec fn step(pre: State, post: State) -> bool {
    ||| post == pre
    ||| mints(pre, post)
    ||| exists|from: AccountId, to: AccountId, id: KittyIndex|
        pre.is_owner(from, id) && post == #[trigger] pre.handed_over(from, to, id)
    ||| exists|who: AccountId, id: KittyIndex, price: Option<Balance>|
        pre.is_owner(who, id) && post == #[trigger] pre.listed(who, id, price)
    ||| exists|seller: AccountId, buyer: AccountId, id: KittyIndex|
        pre.is_owner(seller, id) && post == #[trigger] pre.sold(seller, buyer, id)
}

/// Whether each state of `trace` follows from the one before it by one
/// operation.
pub open spec fn is_history(trace: Seq<State>) -> bool {
    forall|k: int| 0 <= k < trace.len() - 1 ==> step(#[trigger] trace[k], trace[k + 1])
}

/// The balances after `who` set a stake aside.
pub open spec fn staked(funds: Map<AccountId, Funds>, who: AccountId, stake: nat) -> Map<
    AccountId,
    Funds,
> {
    funds.insert(who, funds[who].reserve(stake))
}

/// The balances after `to` set a stake aside and `from` got one back, as far
/// as `from` had one reserved.
pub open spec fn restaked(
    funds: Map<AccountId, Funds>,
    from: AccountId,
    to: AccountId,
    stake: nat,
) -> Map<AccountId, Funds> {
    let taken = staked(funds, to, stake);
    taken.insert(from, taken[from].unreserve(stake))
}

/// The ledger together with the balances of its host at one moment.
pub struct Moment {
    pub state: State,
    pub funds: Map<AccountId, Funds>,
}

impl Moment {
    /// After a kitty was minted for `who` and its stake reserved.
    pub open spec fn minted(self, who: AccountId, dna: Seq<u8>, stake: nat) -> Moment {
        Moment { state: self.state.minted(who, dna), funds: staked(self.funds, who, stake) }
    }

    /// After `from` handed kitty `id` over to `to`, and the stake with it.
    pub open spec fn handed_over(
        self,
        from: AccountId,
        to: AccountId,
        id: KittyIndex,
        stake: nat,
    ) -> Moment {
        Moment {
            state: self.state.handed_over(from, to, id),
            funds: restaked(self.funds, from, to, stake),
        }
    }

    /// After `who` set or cleared the price of kitty `id`.
    pub open spec fn listed(self, who: AccountId, id: KittyIndex, price: Option<Balance>) -> Moment {
        Moment { state: self.state.listed(who, id, price), funds: self.funds }
    }

    /// After `buyer` bought kitty `id` from `seller` for `amount`, the stake
    /// passed on and the price paid.
    pub open spec fn sold(
        self,
        seller: AccountId,
        buyer: AccountId,
        id: KittyIndex,
        amount: nat,
        stake: nat,
    ) -> Moment {
        Moment {
            state: self.state.sold(seller, buyer, id),
            funds: transferred(restaked(self.funds, seller, buyer, stake), buyer, seller, amount),
        }
    }
}

/// Whether one operation leads from `pre` to `post` and has moved the stakes
/// with the kitties: a refusal that changed nothing, a minting with its
/// reservation, a transfer or a sale with the stake passed on, or a listing.
pub open spec fn moves(pre: Moment, post: Moment, stake: nat) -> bool {
    ||| post == pre
    ||| pre.state.count != Some(KittyIndex::MAX) && exists|who: AccountId, dna: Seq<u8>|
        dna.len() == 16 && post == #[trigger] pre.minted(who, dna, stake)
    ||| exists|from: AccountId, to: AccountId, id: KittyIndex|
        pre.state.is_owner(from, id) && post == #[trigger] pre.handed_over(from, to, id, stake)
    ||| exists|who: AccountId, id: KittyIndex, price: Option<Balance>|
        pre.state.is_owner(who, id) && post == #[trigger] pre.listed(who, id, price)
    ||| exists|seller: AccountId, buyer: AccountId, id: KittyIndex, amount: nat|
        pre.state.is_owner(seller, id) && post == #[trigger] pre.sold(
            seller,
            buyer,
            id,
            amount,
            stake,
        )
}

/// Whether each moment of `trace` follows from the one before it by one
/// operation that has moved the stakes with the kitties.
pub open spec fn is_account(trace: Seq<Moment>, stake: nat) -> bool {
    forall|k: int| 0 <= k < trace.len() - 1 ==> moves(#[trigger] trace[k], trace[k + 1], stake)
}

} // verus!
