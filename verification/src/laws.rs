//! What holds of the ledger whatever its operations are asked to do.

use crate::genome::{crossover_spec, select_bits};
use crate::host::{transferred, AccountId, Balance, Funds, KittyIndex};
use crate::state::{
    is_account, is_history, mints, moves, owned_by, restaked, staked, stakes_covered,
    stakes_follow_ownership, step, Moment, State,
};
use vstd::prelude::*;

verus! {

/// Every bit of a child byte is the bit of the first parent where the
/// selector's bit is 1 and the bit of the second parent where it is 0.
pub proof fn crossover_selects_bit_by_bit(s: u8, a: u8, b: u8, k: u8)
    by (bit_vector)
    requires
        k < 8,
    ensures
        (select_bits(s, a, b) >> k) & 1 == (if (s >> k) & 1 == 1 {
            (a >> k) & 1
        } else {
            (b >> k) & 1
        }),
{
}

/// An all-ones selector gives the first parent, an all-zeros selector the
/// second, and equal parents give themselves under any selector.
pub proof fn crossover_of_extremes(a: Seq<u8>, b: Seq<u8>, selector: Seq<u8>)
    requires
        a.len() == 16,
        b.len() == 16,
        selector.len() == 16,
    ensures
        crossover_spec(a, b, selector).len() == 16,
        (forall|i: int| 0 <= i < 16 ==> selector[i] == 0xff) ==> crossover_spec(a, b, selector)
            == a,
        (forall|i: int| 0 <= i < 16 ==> selector[i] == 0) ==> crossover_spec(a, b, selector) == b,
        crossover_spec(a, a, selector) == a,
{
    assert forall|s: u8, x: u8, y: u8| #[trigger] select_bits(s, x, y) == (s & x) | (!s & y) by {}
    assert forall|x: u8, y: u8| (0xffu8 & x) | (!0xffu8 & y) == x by {
        assert((0xffu8 & x) | (!0xffu8 & y) == x) by (bit_vector);
    }
    assert forall|x: u8, y: u8| (0u8 & x) | (!0u8 & y) == y by {
        assert((0u8 & x) | (!0u8 & y) == y) by (bit_vector);
    }
    assert forall|s: u8, x: u8| (s & x) | (!s & x) == x by {
        assert((s & x) | (!s & x) == x) by (bit_vector);
    }
    if forall|i: int| 0 <= i < 16 ==> selector[i] == 0xff {
        assert(crossover_spec(a, b, selector) =~= a);
    }
    if forall|i: int| 0 <= i < 16 ==> selector[i] == 0 {
        assert(crossover_spec(a, b, selector) =~= b);
    }
    assert(crossover_spec(a, a, selector) =~= a);
}

/// A minted kitty gets the counter's value as its index, an index that no
/// kitty had before; the counter then stands one higher, and nothing else
/// about the kitties and their owners has changed.
pub proof fn mint_takes_the_counter(state: State, who: AccountId, dna: Seq<u8>)
    requires
        state.wf(),
        state.count != Some(KittyIndex::MAX),
        dna.len() == 16,
    ensures
        state.minted(who, dna).wf(),
        !state.kitties.contains_key(state.next_index()),
        state.minted(who, dna).next_index() == state.next_index() + 1,
        state.minted(who, dna).kitties == state.kitties.insert(state.next_index(), dna),
        state.minted(who, dna).owner == state.owner.insert(state.next_index(), who),
{
    let post = state.minted(who, dna);
    assert(post.kitties.dom() =~= post.owner.dom());
}

/// One operation keeps the state well formed, never lowers the counter, and
/// neither removes a kitty nor changes its genome.
pub proof fn step_keeps_kitties(pre: State, post: State)
    requires
        pre.wf(),
        step(pre, post),
    ensures
        post.wf(),
        pre.next_index() <= post.next_index(),
        mints(pre, post) ==> pre.next_index() < post.next_index(),
        forall|id: KittyIndex| #[trigger]
            pre.kitties.contains_key(id) ==> post.kitties.contains_key(id) && post.kitties[id]
                == pre.kitties[id],
{
    if mints(pre, post) {
        let (who, dna) = choose|who: AccountId, dna: Seq<u8>|
            dna.len() == 16 && post == #[trigger] pre.minted(who, dna);
        mint_takes_the_counter(pre, who, dna);
    } else {
        assert(post.kitties == pre.kitties);
        assert(post.owner.dom() =~= pre.owner.dom());
    }
}

/// Along any history that starts well formed, every state is well formed and
/// the counter never falls.
pub proof fn history_keeps_counter(trace: Seq<State>, i: int, j: int)
    requires
        is_history(trace),
        trace.len() > 0,
        trace[0].wf(),
        0 <= i <= j < trace.len(),
    ensures
        trace[i].wf(),
        trace[j].wf(),
        trace[i].next_index() <= trace[j].next_index(),
        forall|id: KittyIndex| #[trigger]
            trace[i].kitties.contains_key(id) ==> trace[j].kitties.contains_key(id)
                && trace[j].kitties[id] == trace[i].kitties[id],
    decreases j,
{
    if j == 0 {
    } else if i == j {
        history_keeps_counter(trace, 0, j - 1);
        step_keeps_kitties(trace[j - 1], trace[j]);
    } else {
        history_keeps_counter(trace, i, j - 1);
        step_keeps_kitties(trace[j - 1], trace[j]);
    }
}

/// Uniqueness of indices: in any history that starts well formed, two
/// different mintings hand out different indices, each the counter's value
/// just before, the later one the higher.
pub proof fn minted_indices_are_distinct(trace: Seq<State>, i: int, j: int)
    requires
        is_history(trace),
        trace[0].wf(),
        0 <= i < j < trace.len() - 1,
        mints(trace[i], trace[i + 1]),
        mints(trace[j], trace[j + 1]),
    ensures
        trace[i + 1].kitties.contains_key(trace[i].next_index()),
        !trace[i].kitties.contains_key(trace[i].next_index()),
        trace[j + 1].kitties.contains_key(trace[j].next_index()),
        !trace[j].kitties.contains_key(trace[j].next_index()),
        trace[i].next_index() < trace[j].next_index(),
{
    history_keeps_counter(trace, i, i + 1);
    history_keeps_counter(trace, i + 1, j);
    history_keeps_counter(trace, j, j + 1);
    step_keeps_kitties(trace[i], trace[i + 1]);
    let (who_i, dna_i) = choose|who: AccountId, dna: Seq<u8>|
        dna.len() == 16 && trace[i + 1] == #[trigger] trace[i].minted(who, dna);
    mint_takes_the_counter(trace[i], who_i, dna_i);
    let (who_j, dna_j) = choose|who: AccountId, dna: Seq<u8>|
        dna.len() == 16 && trace[j + 1] == #[trigger] trace[j].minted(who, dna);
    mint_takes_the_counter(trace[j], who_j, dna_j);
}

/// Ownership is total: in any history that starts well formed, a kitty that
/// exists at one moment exists at every later moment, with the genome it was
/// minted with and with exactly one recorded owner.
pub proof fn every_kitty_keeps_an_owner(trace: Seq<State>, i: int, j: int, id: KittyIndex)
    requires
        is_history(trace),
        trace[0].wf(),
        0 <= i <= j < trace.len(),
        trace[i].kitties.contains_key(id),
    ensures
        trace[j].kitties.contains_key(id),
        trace[j].kitties[id] == trace[i].kitties[id],
        trace[j].owner_of(id) is Some,
{
    history_keeps_counter(trace, i, j);
}

/// What a minting does to the kitties that an account owns: one more for the
/// first owner, the same for everybody else.
proof fn owned_after_mint(state: State, who: AccountId, dna: Seq<u8>, account: AccountId)
    requires
        state.wf(),
    ensures
        owned_by(state, account).finite(),
        owned_by(state.minted(who, dna), account).len() == owned_by(state, account).len() + (
        if account == who {
            1int
        } else {
            0
        }),
{
    let id = state.next_index();
    let before = owned_by(state, account);
    let after = owned_by(state.minted(who, dna), account);
    state.owner.dom().lemma_len_filter(|k: KittyIndex| state.owner[k] == account);
    assert(!state.kitties.contains_key(id));
    if account == who {
        assert(after =~= before.insert(id));
    } else {
        assert(after =~= before);
    }
}

/// What a change of owner does to the kitties that an account owns: one less
/// for the previous owner, one more for the new one, the same for everybody
/// else, and the same for all where the two are one.
proof fn owned_after_change(
    state: State,
    from: AccountId,
    to: AccountId,
    id: KittyIndex,
    account: AccountId,
)
    requires
        state.wf(),
        state.is_owner(from, id),
    ensures
        owned_by(state, account).finite(),
        from != to && account == from ==> owned_by(state, account).len() >= 1,
        owned_by((State { owner: state.owner.insert(id, to), ..state }), account).len()
            == owned_by(state, account).len() + (if from == to {
            0int
        } else if account == to {
            1
        } else if account == from {
            -1
        } else {
            0
        }),
{
    let post = State { owner: state.owner.insert(id, to), ..state };
    let before = owned_by(state, account);
    let after = owned_by(post, account);
    state.owner.dom().lemma_len_filter(|k: KittyIndex| state.owner[k] == account);
    assert(post.owner.dom() =~= state.owner.dom());
    if from == to {
        assert(post.owner =~= state.owner);
        assert(after =~= before);
    } else if account == to {
        assert(!before.contains(id));
        assert(after =~= before.insert(id));
    } else if account == from {
        assert(before.contains(id));
        assert(after =~= before.remove(id));
    } else {
        assert(after =~= before);
    }
}

/// Where every account's reserved balance has followed its kitties, stakes
/// that were covered stay covered.
pub proof fn covered_stakes_stay_covered(
    pre: State,
    pre_funds: Map<AccountId, Funds>,
    post: State,
    post_funds: Map<AccountId, Funds>,
    stake: nat,
)
    requires
        stakes_covered(pre, pre_funds, stake),
        stakes_follow_ownership(pre, pre_funds, post, post_funds, stake),
    ensures
        stakes_covered(post, post_funds, stake),
{
    assert forall|who: AccountId| #[trigger]
        post_funds[who].reserved >= stake * owned_by(post, who).len() by {
        assert(pre_funds[who].reserved >= stake * owned_by(pre, who).len());
    }
}

/// Stake conservation on minting: the first owner has one stake more
/// reserved and one kitty more, and nobody else's reservation has changed.
pub proof fn minting_reserves_one_stake(
    state: State,
    funds: Map<AccountId, Funds>,
    stake: nat,
    who: AccountId,
    dna: Seq<u8>,
)
    requires
        state.wf(),
    ensures
        stakes_follow_ownership(
            state,
            funds,
            state.minted(who, dna),
            staked(funds, who, stake),
            stake,
        ),
{
    let post = state.minted(who, dna);
    let post_funds = staked(funds, who, stake);
    assert forall|account: AccountId| #[trigger]
        post_funds[account].reserved - funds[account].reserved == stake * owned_by(
            post,
            account,
        ).len() - stake * owned_by(state, account).len() by {
        owned_after_mint(state, who, dna, account);
        let n = owned_by(state, account).len();
        assert(stake * (n + 1) == stake * n + stake) by (nonlinear_arith);
    }
}

/// Stake conservation on a transfer: where the stakes were covered, the new
/// owner has one stake more reserved, the previous owner one less, and nobody
/// else's reservation has changed; a transfer to oneself changes none.
pub proof fn transfer_moves_one_stake(
    state: State,
    funds: Map<AccountId, Funds>,
    stake: nat,
    from: AccountId,
    to: AccountId,
    id: KittyIndex,
)
    requires
        state.wf(),
        state.is_owner(from, id),
        stakes_covered(state, funds, stake),
    ensures
        stakes_follow_ownership(
            state,
            funds,
            state.handed_over(from, to, id),
            restaked(funds, from, to, stake),
            stake,
        ),
        restaked(funds, from, to, stake)[from].reserved + stake == staked(
            funds,
            to,
            stake,
        )[from].reserved,
{
    let post = state.handed_over(from, to, id);
    let post_funds = restaked(funds, from, to, stake);
    owned_after_change(state, from, to, id, from);
    assert(funds[from].reserved >= stake * owned_by(state, from).len());
    let owned = owned_by(state, from).len();
    assert(owned >= 1 ==> stake * owned >= stake) by (nonlinear_arith);
    assert(staked(funds, to, stake)[from].reserved >= stake);
    assert forall|account: AccountId| #[trigger]
        post_funds[account].reserved - funds[account].reserved == stake * owned_by(
            post,
            account,
        ).len() - stake * owned_by(state, account).len() by {
        owned_after_change(state, from, to, id, account);
        assert(owned_by(post, account) == owned_by(
            (State { owner: state.owner.insert(id, to), ..state }),
            account,
        ));
        let n = owned_by(state, account).len();
        assert(stake * (n + 1) == stake * n + stake) by (nonlinear_arith);
        assert(stake * (n - 1) == stake * n - stake) by (nonlinear_arith);
    }
}

/// Stake conservation on a sale: where the stakes were covered, the buyer
/// has one stake more reserved, the seller one less, and nobody else's
/// reservation has changed. Paying the price moves free balance only.
pub proof fn sale_moves_one_stake(
    state: State,
    funds: Map<AccountId, Funds>,
    stake: nat,
    seller: AccountId,
    buyer: AccountId,
    id: KittyIndex,
    amount: nat,
)
    requires
        state.wf(),
        state.is_owner(seller, id),
        stakes_covered(state, funds, stake),
    ensures
        stakes_follow_ownership(
            state,
            funds,
            state.sold(seller, buyer, id),
            transferred(restaked(funds, seller, buyer, stake), buyer, seller, amount),
            stake,
        ),
{
    let post = state.sold(seller, buyer, id);
    let moved = restaked(funds, seller, buyer, stake);
    let post_funds = transferred(moved, buyer, seller, amount);
    transfer_moves_one_stake(state, funds, stake, seller, buyer, id);
    let handed = state.handed_over(seller, buyer, id);
    assert forall|account: AccountId| #[trigger]
        post_funds[account].reserved - funds[account].reserved == stake * owned_by(
            post,
            account,
        ).len() - stake * owned_by(state, account).len() by {
        assert(owned_by(post, account) == owned_by(handed, account));
        assert(post_funds[account].reserved == moved[account].reserved);
        assert(moved[account].reserved - funds[account].reserved == stake * owned_by(
            handed,
            account,
        ).len() - stake * owned_by(state, account).len());
    }
}

/// A listing moves no stake.
pub proof fn listing_moves_no_stake(
    state: State,
    funds: Map<AccountId, Funds>,
    stake: nat,
    who: AccountId,
    id: KittyIndex,
    price: Option<Balance>,
)
    ensures
        stakes_follow_ownership(state, funds, state.listed(who, id, price), funds, stake),
{
    assert forall|account: AccountId|
        owned_by(state.listed(who, id, price), account) == owned_by(state, account) by {}
}

/// An operation that has moved the stakes with the kitties is one operation
/// on the ledger, and every account's reserved balance has followed the
/// kitties it owns.
pub proof fn moves_follow_ownership(pre: Moment, post: Moment, stake: nat)
    requires
        pre.state.wf(),
        stakes_covered(pre.state, pre.funds, stake),
        moves(pre, post, stake),
    ensures
        step(pre.state, post.state),
        post.state.wf(),
        stakes_follow_ownership(pre.state, pre.funds, post.state, post.funds, stake),
        stakes_covered(post.state, post.funds, stake),
{
    if post == pre {
    } else if pre.state.count != Some(KittyIndex::MAX) && exists|who: AccountId, dna: Seq<u8>|
        dna.len() == 16 && post == #[trigger] pre.minted(who, dna, stake) {
        let (who, dna) = choose|who: AccountId, dna: Seq<u8>|
            dna.len() == 16 && post == #[trigger] pre.minted(who, dna, stake);
        minting_reserves_one_stake(pre.state, pre.funds, stake, who, dna);
        assert(mints(pre.state, post.state));
    } else if exists|from: AccountId, to: AccountId, id: KittyIndex|
        pre.state.is_owner(from, id) && post == #[trigger] pre.handed_over(from, to, id, stake) {
        let (from, to, id) = choose|from: AccountId, to: AccountId, id: KittyIndex|
            pre.state.is_owner(from, id) && post == #[trigger] pre.handed_over(
                from,
                to,
                id,
                stake,
            );
        transfer_moves_one_stake(pre.state, pre.funds, stake, from, to, id);
        assert(post.state == pre.state.handed_over(from, to, id));
    } else if exists|who: AccountId, id: KittyIndex, price: Option<Balance>|
        pre.state.is_owner(who, id) && post == #[trigger] pre.listed(who, id, price) {
        let (who, id, price) = choose|who: AccountId, id: KittyIndex, price: Option<Balance>|
            pre.state.is_owner(who, id) && post == #[trigger] pre.listed(who, id, price);
        listing_moves_no_stake(pre.state, pre.funds, stake, who, id, price);
        assert(post.state == pre.state.listed(who, id, price));
    } else {
        let (seller, buyer, id, amount) = choose|
            seller: AccountId,
            buyer: AccountId,
            id: KittyIndex,
            amount: nat,
        |
            pre.state.is_owner(seller, id) && post == #[trigger] pre.sold(
                seller,
                buyer,
                id,
                amount,
                stake,
            );
        sale_moves_one_stake(pre.state, pre.funds, stake, seller, buyer, id, amount);
        assert(post.state == pre.state.sold(seller, buyer, id));
    }
    step_keeps_kitties(pre.state, post.state);
    covered_stakes_stay_covered(pre.state, pre.funds, post.state, post.funds, stake);
}

/// Stake conservation: from a well-formed ledger whose stakes are covered,
/// over any number of operations that have moved the stakes with the
/// kitties, every account's reserved balance has changed by exactly one stake
/// for each kitty that it has gained or given away on balance. Starting from
/// an empty ledger, what an account has reserved beyond what it had is one
/// stake for each kitty that it owns.
pub proof fn reservations_follow_kitties(trace: Seq<Moment>, stake: nat, j: int)
    requires
        is_account(trace, stake),
        0 <= j < trace.len(),
        trace[0].state.wf(),
        stakes_covered(trace[0].state, trace[0].funds, stake),
    ensures
        trace[j].state.wf(),
        stakes_covered(trace[j].state, trace[j].funds, stake),
        stakes_follow_ownership(
            trace[0].state,
            trace[0].funds,
            trace[j].state,
            trace[j].funds,
            stake,
        ),
        trace[0].state.owner == Map::<KittyIndex, AccountId>::empty() ==> forall|who: AccountId|
            #[trigger] trace[j].funds[who].reserved == trace[0].funds[who].reserved + stake
                * owned_by(trace[j].state, who).len(),
    decreases j,
{
    if j > 0 {
        reservations_follow_kitties(trace, stake, j - 1);
        moves_follow_ownership(trace[j - 1], trace[j], stake);
        assert forall|who: AccountId| #[trigger]
            trace[j].funds[who].reserved - trace[0].funds[who].reserved == stake * owned_by(
                trace[j].state,
                who,
            ).len() - stake * owned_by(trace[0].state, who).len() by {
            assert(trace[j - 1].funds[who].reserved - trace[0].funds[who].reserved == stake
                * owned_by(trace[j - 1].state, who).len() - stake * owned_by(
                trace[0].state,
                who,
            ).len());
            assert(trace[j].funds[who].reserved - trace[j - 1].funds[who].reserved == stake
                * owned_by(trace[j].state, who).len() - stake * owned_by(
                trace[j - 1].state,
                who,
            ).len());
        }
    }
    if trace[0].state.owner == Map::<KittyIndex, AccountId>::empty() {
        assert forall|who: AccountId| #[trigger]
            trace[j].funds[who].reserved == trace[0].funds[who].reserved + stake * owned_by(
                trace[j].state,
                who,
            ).len() by {
            assert(owned_by(trace[0].state, who) =~= Set::empty());
            assert(trace[j].funds[who].reserved - trace[0].funds[who].reserved == stake
                * owned_by(trace[j].state, who).len() - stake * owned_by(
                trace[0].state,
                who,
            ).len());
        }
    }
}

} // verus!
