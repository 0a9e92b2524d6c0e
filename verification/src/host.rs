//! What the ledger asks of its host: the stake constant, the balances with
//! their reservations, and the randomness that seeds new genomes.

use vstd::prelude::*;

verus! {

/// Identity of an actor.
pub type AccountId = u64;

/// An amount of currency.
pub type Balance = u128;

/// Index of a kitty.
pub type KittyIndex = u32;

/// What one account holds: the part it can spend and the part set aside.
pub struct Funds {
    pub free: nat,
    pub reserved: nat,
}

impl Funds {
    /// An account that holds nothing.
    pub open spec fn none() -> Funds {
        Funds { free: 0, reserved: 0 }
    }

    /// After `value` has moved from the free part to the reserved part.
    pub open spec fn reserve(self, value: nat) -> Funds
        recommends
            value <= self.free,
    {
        Funds { free: (self.free - value) as nat, reserved: self.reserved + value }
    }

    /// How much of `value` a release can move: all of it, or what is reserved
    /// if that is less.
    pub open spec fn releasable(self, value: nat) -> nat {
        if value <= self.reserved {
            value
        } else {
            self.reserved
        }
    }

    /// After as much of `value` as is reserved has moved back to the free
    /// part.
    pub open spec fn unreserve(self, value: nat) -> Funds {
        let moved = self.releasable(value);
        Funds { free: self.free + moved, reserved: (self.reserved - moved) as nat }
    }

    /// After `value` has left the free part.
    pub open spec fn pay(self, value: nat) -> Funds
        recommends
            value <= self.free,
    {
        Funds { free: (self.free - value) as nat, reserved: self.reserved }
    }

    /// After `value` has arrived in the free part.
    pub open spec fn receive(self, value: nat) -> Funds {
        Funds { free: self.free + value, reserved: self.reserved }
    }
}

/// The balances after `value` of free balance has moved from `source` to
/// `dest`. A transfer to oneself changes nothing.
pub open spec fn transferred(
    funds: Map<AccountId, Funds>,
    source: AccountId,
    dest: AccountId,
    value: nat,
) -> Map<AccountId, Funds>
    recommends
        value <= funds[source].free,
{
    let paid = funds.insert(source, funds[source].pay(value));
    paid.insert(dest, paid[dest].receive(value))
}

/// A reservation or a transfer that the balances do not allow.
#[derive(Clone, Copy, Debug, PartialEq, Eq, Structural)]
pub struct InsufficientBalance;

/// Whether two states of a host charge the same stake and decide alike on
/// every reservation and every transfer, whatever the balances.
pub open spec fn same_rules<T: Config>(pre: &T, post: &T) -> bool {
    &&& post.stake() == pre.stake()
    &&& forall|funds: Map<AccountId, Funds>, who: AccountId, value: Balance| #[trigger]
        post.would_reserve(funds, who, value) == pre.would_reserve(funds, who, value)
    &&& forall|funds: Map<AccountId, Funds>, source: AccountId, dest: AccountId, value: Balance|
        #[trigger] post.would_transfer(funds, source, dest, value) == pre.would_transfer(
            funds,
            source,
            dest,
            value,
        )
}

/// Whether two states of a host differ in nothing but balances: the rules and
/// the open checkpoints are the same.
pub open spec fn same_but_funds<T: Config>(pre: &T, post: &T) -> bool {
    same_rules(pre, post) && post.checkpoints() == pre.checkpoints()
}

/// The host of the ledger. It keeps the accounts, decides which reservations
/// and transfers it allows, can take back what was done since a checkpoint,
/// and supplies the seed for new genomes.
///
/// The spec functions are the host's state as the ledger's contracts see it,
/// and the executable methods say how each call reads or changes that state.
/// An implementation defines the spec functions for its own state; left as
/// they stand here, they say nothing of it. No call changes the stake or the
/// rules by which the host decides on reservations and transfers, and only
/// `checkpoint`, `rollback` and `commit` change which checkpoints are open.
pub trait Config: Sized {
    /// The stake that holding one kitty costs.
    open spec fn stake(&self) -> Balance {
        arbitrary()
    }

    /// The funds of every account.
    open spec fn funds(&self) -> Map<AccountId, Funds> {
        arbitrary()
    }

    /// Whether the host lets `who` set `value` aside where the balances are
    /// `funds`.
    open spec fn would_reserve(
        &self,
        funds: Map<AccountId, Funds>,
        who: AccountId,
        value: Balance,
    ) -> bool {
        arbitrary()
    }

    /// Whether the host lets `source` pay `value` to `dest` and stay open
    /// where the balances are `funds`.
    open spec fn would_transfer(
        &self,
        funds: Map<AccountId, Funds>,
        source: AccountId,
        dest: AccountId,
        value: Balance,
    ) -> bool {
        arbitrary()
    }

    /// The balances as they stood at each checkpoint that is still open,
    /// oldest first.
    open spec fn checkpoints(&self) -> Seq<Map<AccountId, Funds>> {
        arbitrary()
    }

    /// The current random seed and the block since which it could be known.
    open spec fn seed(&self) -> ([u8; 32], u64) {
        arbitrary()
    }

    /// The index of the call that is running, if the host counts calls.
    open spec fn call_index(&self) -> Option<u32> {
        arbitrary()
    }

    /// The stake that holding one kitty costs.
    fn stake_for_each_kitty(&self) -> (stake: Balance)
        ensures
            stake == self.stake(),
    ;

    /// The current random seed and the block since which it could be known.
    fn random_seed(&self) -> (seed: ([u8; 32], u64))
        ensures
            seed == self.seed(),
    ;

    /// The index of the call that is running.
    fn extrinsic_index(&self) -> (index: Option<u32>)
        ensures
            index == self.call_index(),
    ;

    /// The free balance of `who`.
    fn free_balance(&self, who: AccountId) -> (free: Balance)
        ensures
            free == self.funds()[who].free,
    ;

    /// Moves `value` from the free balance of `who` to its reserved balance,
    /// or refuses and moves nothing. Never succeeds beyond the free balance.
    fn reserve(&mut self, who: AccountId, value: Balance) -> (r: Result<(), InsufficientBalance>)
        ensures
            r is Ok <==> old(self).would_reserve(old(self).funds(), who, value),
            r is Ok ==> value <= old(self).funds()[who].free,
            r is Ok ==> final(self).funds() == old(self).funds().insert(
                who,
                old(self).funds()[who].reserve(value as nat),
            ),
            r is Err ==> final(self).funds() == old(self).funds(),
            final(self).stake() == old(self).stake(),
            forall|funds: Map<AccountId, Funds>, who: AccountId, value: Balance| #[trigger]
                final(self).would_reserve(funds, who, value) == old(self).would_reserve(
                    funds,
                    who,
                    value,
                ),
            forall|funds: Map<AccountId, Funds>, source: AccountId, dest: AccountId, value: Balance|
                #[trigger] final(self).would_transfer(funds, source, dest, value) == old(
                    self,
                ).would_transfer(funds, source, dest, value),
            final(self).checkpoints() == old(self).checkpoints(),
    ;

    /// Moves up to `value` from the reserved balance of `who` back to its free
    /// balance, and returns the part of `value` that was not there to move.
    fn unreserve(&mut self, who: AccountId, value: Balance) -> (remaining: Balance)
        ensures
            remaining == value - old(self).funds()[who].releasable(value as nat),
            final(self).funds() == old(self).funds().insert(
                who,
                old(self).funds()[who].unreserve(value as nat),
            ),
            final(self).stake() == old(self).stake(),
            forall|funds: Map<AccountId, Funds>, who: AccountId, value: Balance| #[trigger]
                final(self).would_reserve(funds, who, value) == old(self).would_reserve(
                    funds,
                    who,
                    value,
                ),
            forall|funds: Map<AccountId, Funds>, source: AccountId, dest: AccountId, value: Balance|
                #[trigger] final(self).would_transfer(funds, source, dest, value) == old(
                    self,
                ).would_transfer(funds, source, dest, value),
            final(self).checkpoints() == old(self).checkpoints(),
    ;

    /// Moves `value` of free balance from `source` to `dest`, leaving the
    /// account of `source` open, or refuses and moves nothing. Never succeeds
    /// beyond the free balance of `source`.
    fn transfer(&mut self, source: AccountId, dest: AccountId, value: Balance) -> (r: Result<
        (),
        InsufficientBalance,
    >)
        ensures
            r is Ok <==> old(self).would_transfer(old(self).funds(), source, dest, value),
            r is Ok ==> value <= old(self).funds()[source].free,
            r is Ok ==> final(self).funds() == transferred(
                old(self).funds(),
                source,
                dest,
                value as nat,
            ),
            r is Err ==> final(self).funds() == old(self).funds(),
            final(self).stake() == old(self).stake(),
            forall|funds: Map<AccountId, Funds>, who: AccountId, value: Balance| #[trigger]
                final(self).would_reserve(funds, who, value) == old(self).would_reserve(
                    funds,
                    who,
                    value,
                ),
            forall|funds: Map<AccountId, Funds>, source: AccountId, dest: AccountId, value: Balance|
                #[trigger] final(self).would_transfer(funds, source, dest, value) == old(
                    self,
                ).would_transfer(funds, source, dest, value),
            final(self).checkpoints() == old(self).checkpoints(),
    ;

    /// Opens a checkpoint: the balances as they stand can be had back until
    /// it is ended.
    fn checkpoint(&mut self)
        ensures
            final(self).funds() == old(self).funds(),
            final(self).checkpoints() == old(self).checkpoints().push(old(self).funds()),
            final(self).stake() == old(self).stake(),
            forall|funds: Map<AccountId, Funds>, who: AccountId, value: Balance| #[trigger]
                final(self).would_reserve(funds, who, value) == old(self).would_reserve(
                    funds,
                    who,
                    value,
                ),
            forall|funds: Map<AccountId, Funds>, source: AccountId, dest: AccountId, value: Balance|
                #[trigger] final(self).would_transfer(funds, source, dest, value) == old(
                    self,
                ).would_transfer(funds, source, dest, value),
    ;

    /// Ends the checkpoint opened last and takes the balances back to where
    /// they stood when it was opened.
    fn rollback(&mut self)
        requires
            old(self).checkpoints().len() > 0,
        ensures
            final(self).funds() == old(self).checkpoints().last(),
            final(self).checkpoints() == old(self).checkpoints().drop_last(),
            final(self).stake() == old(self).stake(),
            forall|funds: Map<AccountId, Funds>, who: AccountId, value: Balance| #[trigger]
                final(self).would_reserve(funds, who, value) == old(self).would_reserve(
                    funds,
                    who,
                    value,
                ),
            forall|funds: Map<AccountId, Funds>, source: AccountId, dest: AccountId, value: Balance|
                #[trigger] final(self).would_transfer(funds, source, dest, value) == old(
                    self,
                ).would_transfer(funds, source, dest, value),
    ;

    /// Ends the checkpoint opened last and keeps the balances as they are.
    fn commit(&mut self)
        requires
            old(self).checkpoints().len() > 0,
        ensures
            final(self).funds() == old(self).funds(),
            final(self).checkpoints() == old(self).checkpoints().drop_last(),
            final(self).stake() == old(self).stake(),
            forall|funds: Map<AccountId, Funds>, who: AccountId, value: Balance| #[trigger]
                final(self).would_reserve(funds, who, value) == old(self).would_reserve(
                    funds,
                    who,
                    value,
                ),
            forall|funds: Map<AccountId, Funds>, source: AccountId, dest: AccountId, value: Balance|
                #[trigger] final(self).would_transfer(funds, source, dest, value) == old(
                    self,
                ).would_transfer(funds, source, dest, value),
    ;
}

} // verus!
