//! A host that keeps its accounts in memory.

use crate::host::{transferred, AccountId, Balance, Config, Funds, InsufficientBalance};
use std::collections::HashMap;
use vstd::prelude::*;

verus! {

broadcast use vstd::std_specs::hash::group_hash_axioms;

/// One account as it is stored: all that it holds, and how much of that is
/// set aside.
#[derive(Clone, Copy, Debug)]
struct Account {
    total: Balance,
    reserved: Balance,
}

impl Account {
    /// The part that is set aside: never more than the account holds.
    spec fn reserved_part(self) -> nat {
        if self.reserved <= self.total {
            self.reserved as nat
        } else {
            self.total as nat
        }
    }

    /// The account as the contracts see it.
    spec fn funds(self) -> Funds {
        Funds { free: (self.total - self.reserved_part()) as nat, reserved: self.reserved_part() }
    }
}

/// What the stored accounts amount to: the funds of every account, nothing
/// for one that was never touched.
spec fn funds_of(accounts: Map<AccountId, Account>) -> Map<AccountId, Funds> {
    Map::new(
        |who: AccountId| true,
        |who: AccountId|
            if accounts.contains_key(who) {
                accounts[who].funds()
            } else {
                Funds::none()
            },
    )
}

/// Whether two states of a host in memory differ in nothing but balances.
pub open spec fn only_funds_differ(pre: &MemoryHost, post: &MemoryHost) -> bool {
    &&& post.stake() == pre.stake()
    &&& post.checkpoints() == pre.checkpoints()
    &&& post.minimum() == pre.minimum()
    &&& post.seed() == pre.seed()
    &&& post.call_index() == pre.call_index()
}

/// A host with its accounts in memory. It allows a reservation whenever the
/// free balance covers it, and a transfer whenever the free balance covers it
/// and the payer keeps at least the minimum balance, free and reserved
/// together. A checkpoint keeps a copy of the accounts.
pub struct MemoryHost {
    stake: Balance,
    minimum_balance: Balance,
    accounts: HashMap<AccountId, Account>,
    saved: Vec<HashMap<AccountId, Account>>,
    seed: [u8; 32],
    known_since: u64,
    extrinsic_index: Option<u32>,
}

impl MemoryHost {
    /// The least that an account must keep, free and reserved together, when
    /// it pays.
    pub closed spec fn minimum(&self) -> Balance {
        self.minimum_balance
    }

    /// A host without funds, with an all-zero seed at block 0 and no call
    /// index.
    pub fn new(stake: Balance, minimum_balance: Balance) -> (host: MemoryHost)
        ensures
            host.stake() == stake,
            host.minimum() == minimum_balance,
            host.funds() == Map::new(|who: AccountId| true, |who: AccountId| Funds::none()),
            host.checkpoints() == Seq::<Map<AccountId, Funds>>::empty(),
            host.seed().0@ == Seq::new(32, |i: int| 0u8),
            host.seed().1 == 0,
            host.call_index() == None::<u32>,
    {
        let host = MemoryHost {
            stake,
            minimum_balance,
            accounts: HashMap::new(),
            saved: Vec::new(),
            seed: [0u8; 32],
            known_since: 0,
            extrinsic_index: None,
        };
        assert(host.funds() =~= Map::new(|who: AccountId| true, |who: AccountId| Funds::none()));
        assert(host.seed().0@ =~= Seq::new(32, |i: int| 0u8));
        assert(host.checkpoints() =~= Seq::<Map<AccountId, Funds>>::empty());
        host
    }

    /// What `who` holds and how much of it is set aside, zero for an account
    /// never touched.
    fn account(&self, who: AccountId) -> (account: Account)
        ensures
            account.reserved <= account.total,
            account.funds() == self.funds()[who],
    {
        match self.accounts.get(&who) {
            Some(account) => Account {
                total: account.total,
                reserved: if account.reserved <= account.total {
                    account.reserved
                } else {
                    account.total
                },
            },
            None => Account { total: 0, reserved: 0 },
        }
    }

    /// Stores what `who` holds.
    fn put(&mut self, who: AccountId, account: Account)
        ensures
            final(self).funds() == old(self).funds().insert(who, account.funds()),
            only_funds_differ(old(self), final(self)),
    {
        self.accounts.insert(who, account);
        assert(self.funds() =~= old(self).funds().insert(who, account.funds()));
    }

    /// Adds `value` to the free balance of `who`. Refuses, and changes
    /// nothing, where the account would then hold more than the largest
    /// balance.
    pub fn deposit(&mut self, who: AccountId, value: Balance) -> (accepted: bool)
        ensures
            accepted <==> old(self).funds()[who].free + old(self).funds()[who].reserved + value
                <= Balance::MAX,
            accepted ==> final(self).funds() == old(self).funds().insert(
                who,
                old(self).funds()[who].receive(value as nat),
            ),
            !accepted ==> final(self).funds() == old(self).funds(),
            only_funds_differ(old(self), final(self)),
    {
        let account = self.account(who);
        if value <= Balance::MAX - account.total {
            self.put(who, Account { total: account.total + value, reserved: account.reserved });
            true
        } else {
            false
        }
    }

    /// The reserved balance of `who`.
    pub fn reserved_balance(&self, who: AccountId) -> (reserved: Balance)
        ensures
            reserved == self.funds()[who].reserved,
    {
        self.account(who).reserved
    }

    /// Sets the seed that the next genomes derive from.
    pub fn set_random_seed(&mut self, seed: [u8; 32], known_since: u64)
        ensures
            final(self).seed() == (seed, known_since),
            final(self).funds() == old(self).funds(),
            final(self).stake() == old(self).stake(),
            final(self).checkpoints() == old(self).checkpoints(),
            final(self).minimum() == old(self).minimum(),
            final(self).call_index() == old(self).call_index(),
    {
        self.seed = seed;
        self.known_since = known_since;
    }

    /// Sets the index of the running call.
    pub fn set_extrinsic_index(&mut self, index: Option<u32>)
        ensures
            final(self).call_index() == index,
            final(self).funds() == old(self).funds(),
            final(self).stake() == old(self).stake(),
            final(self).checkpoints() == old(self).checkpoints(),
            final(self).minimum() == old(self).minimum(),
            final(self).seed() == old(self).seed(),
    {
        self.extrinsic_index = index;
    }
}

impl Config for MemoryHost {
    closed spec fn stake(&self) -> Balance {
        self.stake
    }

    closed spec fn funds(&self) -> Map<AccountId, Funds> {
        funds_of(self.accounts@)
    }

    open spec fn would_reserve(
        &self,
        funds: Map<AccountId, Funds>,
        who: AccountId,
        value: Balance,
    ) -> bool {
        value <= funds[who].free
    }

    open spec fn would_transfer(
        &self,
        funds: Map<AccountId, Funds>,
        source: AccountId,
        dest: AccountId,
        value: Balance,
    ) -> bool {
        let payer = funds[source];
        let payee = funds[dest];
        &&& value <= payer.free
        &&& payer.free - value + payer.reserved >= self.minimum()
        &&& source != dest ==> payee.free + payee.reserved + value <= Balance::MAX
    }

    closed spec fn checkpoints(&self) -> Seq<Map<AccountId, Funds>> {
        Seq::new(self.saved@.len(), |i: int| funds_of(self.saved@[i]@))
    }

    closed spec fn seed(&self) -> ([u8; 32], u64) {
        (self.seed, self.known_since)
    }

    closed spec fn call_index(&self) -> Option<u32> {
        self.extrinsic_index
    }

    fn stake_for_each_kitty(&self) -> (stake: Balance) {
        self.stake
    }

    fn random_seed(&self) -> (seed: ([u8; 32], u64)) {
        (self.seed, self.known_since)
    }

    fn extrinsic_index(&self) -> (index: Option<u32>) {
        self.extrinsic_index
    }

    fn free_balance(&self, who: AccountId) -> (free: Balance) {
        let account = self.account(who);
        account.total - account.reserved
    }

    fn reserve(&mut self, who: AccountId, value: Balance) -> (r: Result<(), InsufficientBalance>)
        ensures
            only_funds_differ(old(self), final(self)),
    {
        let account = self.account(who);
        if value <= account.total - account.reserved {
            self.put(who, Account { total: account.total, reserved: account.reserved + value });
            Ok(())
        } else {
            Err(InsufficientBalance)
        }
    }

    fn unreserve(&mut self, who: AccountId, value: Balance) -> (remaining: Balance)
        ensures
            only_funds_differ(old(self), final(self)),
    {
        let account = self.account(who);
        let moved = if value <= account.reserved {
            value
        } else {
            account.reserved
        };
        self.put(who, Account { total: account.total, reserved: account.reserved - moved });
        value - moved
    }

    fn transfer(&mut self, source: AccountId, dest: AccountId, value: Balance) -> (r: Result<
        (),
        InsufficientBalance,
    >)
        ensures
            only_funds_differ(old(self), final(self)),
    {
        let payer = self.account(source);
        if value > payer.total - payer.reserved || payer.total - value < self.minimum_balance {
            return Err(InsufficientBalance);
        }
        if source == dest {
            self.put(source, payer);
            assert(self.funds() =~= transferred(old(self).funds(), source, dest, value as nat));
            return Ok(());
        }
        let payee = self.account(dest);
        if value > Balance::MAX - payee.total {
            return Err(InsufficientBalance);
        }
        self.put(source, Account { total: payer.total - value, reserved: payer.reserved });
        self.put(dest, Account { total: payee.total + value, reserved: payee.reserved });
        Ok(())
    }

    fn checkpoint(&mut self)
        ensures
            final(self).minimum() == old(self).minimum(),
            final(self).seed() == old(self).seed(),
            final(self).call_index() == old(self).call_index(),
    {
        let copy = self.accounts.clone();
        self.saved.push(copy);
        assert(self.checkpoints() =~= old(self).checkpoints().push(old(self).funds()));
    }

    fn rollback(&mut self)
        ensures
            final(self).minimum() == old(self).minimum(),
            final(self).seed() == old(self).seed(),
            final(self).call_index() == old(self).call_index(),
    {
        match self.saved.pop() {
            Some(accounts) => {
                self.accounts = accounts;
            },
            None => {},
        }
        assert(self.checkpoints() =~= old(self).checkpoints().drop_last());
    }

    fn commit(&mut self)
        ensures
            final(self).minimum() == old(self).minimum(),
            final(self).seed() == old(self).seed(),
            final(self).call_index() == old(self).call_index(),
    {
        self.saved.pop();
        assert(self.checkpoints() =~= old(self).checkpoints().drop_last());
    }
}

} // verus!
