use kitties::genome::{crossover, random_value};
use kitties::{Config, Error, Event, MemoryHost, Pallet};

const STAKE: u128 = 10_000;
const RICH: u128 = 10_000_000_000;

fn funded(accounts: &[(u64, u128)], minimum_balance: u128) -> Pallet<MemoryHost> {
    let mut host = MemoryHost::new(STAKE, minimum_balance);
    for (who, amount) in accounts {
        assert!(host.deposit(*who, *amount));
    }
    Pallet::new(host)
}

fn standard() -> Pallet<MemoryHost> {
    funded(&[(1, RICH), (2, RICH), (3, 9_000)], 500)
}

fn free(pallet: &Pallet<MemoryHost>, who: u64) -> u128 {
    pallet.host().free_balance(who)
}

fn reserved(pallet: &Pallet<MemoryHost>, who: u64) -> u128 {
    pallet.host().reserved_balance(who)
}

#[test]
fn create_reserves_one_stake_and_mints_index_zero() {
    let mut pallet = standard();
    assert_eq!(pallet.kitties_count(), None);
    assert_eq!(pallet.create(1), Ok(()));
    assert_eq!(pallet.kitties_count(), Some(1));
    assert_eq!(pallet.owner(0), Some(1));
    assert_eq!(reserved(&pallet, 1), 10_000);
    assert_eq!(free(&pallet, 1), 10_000_000_000 - 10_000);
    assert_eq!(pallet.kitties_list_for_sales(0), None);
    assert_eq!(pallet.events().to_vec(), vec![Event::KittyCreate(1, 0)]);
}

#[test]
fn create_derives_the_genome_from_seed_sender_and_call_index() {
    let mut pallet = standard();
    assert_eq!(pallet.create(1), Ok(()));
    assert_eq!(
        pallet.kitties(0).map(|k| k.0),
        Some([13, 230, 184, 118, 55, 106, 96, 136, 215, 112, 142, 153, 15, 242, 178, 234])
    );
    assert_eq!(pallet.create(2), Ok(()));
    assert_eq!(
        pallet.kitties(1).map(|k| k.0),
        Some([238, 116, 44, 165, 9, 36, 79, 135, 86, 113, 98, 110, 209, 78, 39, 155])
    );
    pallet.host_mut().set_extrinsic_index(Some(5));
    assert_eq!(pallet.create(1), Ok(()));
    assert_eq!(
        pallet.kitties(2).map(|k| k.0),
        Some([237, 171, 214, 79, 40, 160, 45, 215, 72, 252, 94, 224, 86, 207, 46, 198])
    );
    assert_eq!(pallet.random_value(1), random_value(&[0u8; 32], 0, 1, Some(5)));
}

#[test]
fn create_with_insufficient_stake_leaves_the_counter() {
    let mut pallet = standard();
    assert_eq!(pallet.create(3), Err(Error::NotEnoughBalanceForStaking));
    assert_eq!(pallet.kitties_count(), None);
    assert_eq!(pallet.kitties(0).map(|k| k.0), None);
    assert_eq!(pallet.owner(0), None);
    assert_eq!(free(&pallet, 3), 9_000);
    assert_eq!(reserved(&pallet, 3), 0);
    assert!(pallet.events().is_empty());
    assert_eq!(pallet.create(1), Ok(()));
    assert_eq!(pallet.create(3), Err(Error::NotEnoughBalanceForStaking));
    assert_eq!(pallet.kitties_count(), Some(1));
}

#[test]
fn create_with_exactly_one_stake_succeeds() {
    let mut pallet = funded(&[(7, 10_000)], 500);
    assert_eq!(pallet.create(7), Ok(()));
    assert_eq!(free(&pallet, 7), 0);
    assert_eq!(reserved(&pallet, 7), 10_000);
    assert_eq!(pallet.create(7), Err(Error::NotEnoughBalanceForStaking));
}

#[test]
fn counter_fails_closed_at_the_largest_index() {
    let mut host = MemoryHost::new(STAKE, 500);
    assert!(host.deposit(1, RICH));
    let mut pallet = Pallet::with_kitties_count(host, u32::MAX - 1);
    assert_eq!(pallet.kitties_count(), Some(u32::MAX - 1));
    assert_eq!(pallet.create(1), Ok(()));
    assert_eq!(pallet.owner(u32::MAX - 1), Some(1));
    assert_eq!(pallet.kitties_count(), Some(u32::MAX));
    assert_eq!(pallet.create(1), Err(Error::KittiesCountOverflow));
    assert_eq!(pallet.breed(1, u32::MAX - 1, 0), Err(Error::InvalidKittyIndex));
    assert_eq!(pallet.kitties_count(), Some(u32::MAX));
    assert_eq!(pallet.owner(u32::MAX), None);
    assert_eq!(reserved(&pallet, 1), 10_000);
    // the kitties that exist can still change hands
    assert_eq!(pallet.sell(1, u32::MAX - 1, Some(1)), Ok(()));
}

#[test]
fn overflow_is_reported_before_the_stake_is_tried() {
    let host = MemoryHost::new(STAKE, 500);
    let mut pallet = Pallet::with_kitties_count(host, u32::MAX);
    assert_eq!(pallet.create(9), Err(Error::KittiesCountOverflow));
}

#[test]
fn minted_indices_count_up_and_never_repeat() {
    let mut pallet = standard();
    for expected in 0u32..20 {
        assert_eq!(pallet.kitties_count().unwrap_or(0), expected);
        assert_eq!(pallet.owner(expected), None);
        if expected % 3 == 2 {
            assert_eq!(pallet.breed(2, expected - 1, expected - 2), Ok(()));
            assert_eq!(pallet.owner(expected), Some(2));
        } else {
            assert_eq!(pallet.create(1), Ok(()));
            assert_eq!(pallet.owner(expected), Some(1));
        }
        // refused calls in between do not move the counter
        assert_eq!(pallet.create(3), Err(Error::NotEnoughBalanceForStaking));
        assert_eq!(pallet.breed(1, expected, expected), Err(Error::SameParentIndex));
        assert_eq!(pallet.kitties_count(), Some(expected + 1));
    }
    let mut seen = Vec::new();
    for event in pallet.events() {
        if let Event::KittyCreate(_, id) = event {
            assert!(!seen.contains(id));
            seen.push(*id);
        }
    }
    assert_eq!(seen, (0u32..20).collect::<Vec<u32>>());
}

#[test]
fn every_kitty_has_an_owner_and_keeps_its_genome() {
    let mut pallet = standard();
    assert_eq!(pallet.create(1), Ok(()));
    assert_eq!(pallet.create(2), Ok(()));
    assert_eq!(pallet.breed(1, 0, 1), Ok(()));
    let genomes: Vec<[u8; 16]> = (0u32..3).map(|id| pallet.kitties(id).unwrap().0).collect();
    assert_eq!(pallet.transfer(1, 2, 0), Ok(()));
    assert_eq!(pallet.sell(2, 1, Some(77)), Ok(()));
    assert_eq!(pallet.buy(1, 1), Ok(()));
    assert_eq!(pallet.transfer(1, 1, 2), Ok(()));
    assert_eq!(pallet.buy(3, 0), Err(Error::NotForSale));
    for id in 0u32..3 {
        assert_eq!(pallet.kitties(id).unwrap().0, genomes[id as usize]);
        assert!(pallet.owner(id).is_some());
    }
    assert_eq!(pallet.owner(0), Some(2));
    assert_eq!(pallet.owner(1), Some(1));
    assert_eq!(pallet.owner(2), Some(1));
    assert_eq!(pallet.owner(3), None);
    assert!(pallet.kitties(3).is_none());
}

#[test]
fn transfer_moves_the_stake_with_the_kitty() {
    let mut pallet = standard();
    assert_eq!(pallet.create(1), Ok(()));
    assert_eq!(pallet.transfer(1, 2, 0), Ok(()));
    assert_eq!(pallet.owner(0), Some(2));
    assert_eq!((free(&pallet, 1), reserved(&pallet, 1)), (RICH, 0));
    assert_eq!((free(&pallet, 2), reserved(&pallet, 2)), (RICH - STAKE, STAKE));
    assert_eq!(
        pallet.events().to_vec(),
        vec![Event::KittyCreate(1, 0), Event::KittyTransfer(1, 2, 0)]
    );
    // the previous owner has no say any more
    assert_eq!(pallet.transfer(1, 2, 0), Err(Error::NotOwner));
    assert_eq!(pallet.sell(1, 0, Some(5)), Err(Error::NotOwner));
}

#[test]
fn transfer_to_oneself_is_allowed_and_moves_nothing() {
    let mut pallet = standard();
    assert_eq!(pallet.create(1), Ok(()));
    assert_eq!(pallet.transfer(1, 1, 0), Ok(()));
    assert_eq!(pallet.owner(0), Some(1));
    assert_eq!((free(&pallet, 1), reserved(&pallet, 1)), (RICH - STAKE, STAKE));
    assert!(pallet.events().contains(&Event::KittyTransfer(1, 1, 0)));
}

#[test]
fn transfer_to_oneself_still_needs_a_free_stake() {
    let mut pallet = funded(&[(7, 10_000)], 0);
    assert_eq!(pallet.create(7), Ok(()));
    assert_eq!(pallet.transfer(7, 7, 0), Err(Error::NotEnoughBalanceForStaking));
    assert_eq!((free(&pallet, 7), reserved(&pallet, 7)), (0, 10_000));
}

#[test]
fn transfer_of_a_missing_kitty_is_refused_as_not_owned() {
    let mut pallet = standard();
    assert_eq!(pallet.transfer(1, 2, 0), Err(Error::NotOwner));
    assert_eq!(pallet.sell(1, 0, Some(1)), Err(Error::NotOwner));
    assert!(pallet.events().is_empty());
}

#[test]
fn transfer_checks_the_owner_before_the_balance() {
    let mut pallet = standard();
    assert_eq!(pallet.create(1), Ok(()));
    assert_eq!(pallet.transfer(2, 3, 0), Err(Error::NotOwner));
    assert_eq!(pallet.transfer(3, 3, 0), Err(Error::NotOwner));
}

#[test]
fn breed_crosses_the_parents_under_a_derived_selector() {
    let mut pallet = standard();
    let a = [0, 17, 34, 51, 68, 85, 102, 119, 136, 153, 170, 187, 204, 221, 238, 255];
    let b = [165, 164, 167, 166, 161, 160, 163, 162, 173, 172, 175, 174, 169, 168, 171, 170];
    assert_eq!(pallet.new_kitty_with_stake(1, a), Ok(()));
    assert_eq!(pallet.new_kitty_with_stake(1, b), Ok(()));
    let mut seed = [0u8; 32];
    for i in 0..32 {
        seed[i] = i as u8;
    }
    pallet.host_mut().set_random_seed(seed, 7);
    pallet.host_mut().set_extrinsic_index(Some(3));
    assert_eq!(pallet.breed(2, 0, 1), Ok(()));
    let child = pallet.kitties(2).unwrap().0;
    assert_eq!(
        child,
        [160, 49, 34, 182, 133, 101, 98, 227, 140, 172, 170, 187, 137, 156, 234, 191]
    );
    let selector = random_value(&seed, 7, 2, Some(3));
    assert_eq!(
        selector,
        [87, 223, 255, 18, 52, 197, 211, 67, 113, 66, 117, 119, 56, 60, 203, 29]
    );
    assert_eq!(child, crossover(&a, &b, &selector));
    assert_eq!(pallet.owner(2), Some(2));
    assert_eq!(reserved(&pallet, 2), STAKE);
    assert_eq!(reserved(&pallet, 1), 2 * STAKE);
    // the parents are as they were
    assert_eq!(pallet.kitties(0).unwrap().0, a);
    assert_eq!(pallet.kitties(1).unwrap().0, b);
    // the order of the parents matters
    assert_eq!(pallet.breed(2, 1, 0), Ok(()));
    assert_eq!(pallet.kitties(3).unwrap().0, crossover(&b, &a, &selector));
}

#[test]
fn breed_with_the_same_parent_twice_fails_whether_it_exists_or_not() {
    let mut pallet = standard();
    assert_eq!(pallet.breed(1, 0, 0), Err(Error::SameParentIndex));
    assert_eq!(pallet.breed(1, 42, 42), Err(Error::SameParentIndex));
    assert_eq!(pallet.create(1), Ok(()));
    assert_eq!(pallet.breed(1, 0, 0), Err(Error::SameParentIndex));
    assert_eq!(pallet.breed(3, 0, 0), Err(Error::SameParentIndex));
    assert_eq!(pallet.breed(1, u32::MAX, u32::MAX), Err(Error::SameParentIndex));
    assert_eq!(pallet.kitties_count(), Some(1));
}

#[test]
fn breed_needs_both_parents() {
    let mut pallet = standard();
    assert_eq!(pallet.create(1), Ok(()));
    assert_eq!(pallet.breed(1, 0, 1), Err(Error::InvalidKittyIndex));
    assert_eq!(pallet.breed(1, 1, 0), Err(Error::InvalidKittyIndex));
    assert_eq!(pallet.breed(1, 5, 6), Err(Error::InvalidKittyIndex));
    // a missing parent is reported before a missing stake
    assert_eq!(pallet.breed(3, 0, 1), Err(Error::InvalidKittyIndex));
}

#[test]
fn breed_from_parents_of_other_owners() {
    let mut pallet = standard();
    assert_eq!(pallet.create(1), Ok(()));
    assert_eq!(pallet.create(1), Ok(()));
    assert_eq!(pallet.breed(2, 0, 1), Ok(()));
    assert_eq!(pallet.owner(2), Some(2));
    assert_eq!(pallet.owner(0), Some(1));
    assert_eq!(pallet.owner(1), Some(1));
}

#[test]
fn sell_overwrites_and_clears_a_listing() {
    let mut pallet = standard();
    assert_eq!(pallet.create(1), Ok(()));
    assert_eq!(pallet.sell(1, 0, Some(1_500)), Ok(()));
    assert_eq!(pallet.kitties_list_for_sales(0), Some(1_500));
    assert_eq!(pallet.sell(1, 0, Some(2_000)), Ok(()));
    assert_eq!(pallet.kitties_list_for_sales(0), Some(2_000));
    assert_eq!(pallet.sell(1, 0, None), Ok(()));
    assert_eq!(pallet.kitties_list_for_sales(0), None);
    assert_eq!(pallet.sell(1, 0, None), Ok(()));
    assert_eq!(pallet.sell(1, 0, Some(0)), Ok(()));
    assert_eq!(pallet.kitties_list_for_sales(0), Some(0));
    assert_eq!(
        pallet.events().to_vec(),
        vec![
            Event::KittyCreate(1, 0),
            Event::KittySell(1, 0, Some(1_500)),
            Event::KittySell(1, 0, Some(2_000)),
            Event::KittySell(1, 0, None),
            Event::KittySell(1, 0, None),
            Event::KittySell(1, 0, Some(0)),
        ]
    );
    // listing moves neither the kitty nor any balance
    assert_eq!(pallet.owner(0), Some(1));
    assert_eq!((free(&pallet, 1), reserved(&pallet, 1)), (RICH - STAKE, STAKE));
}

#[test]
fn sell_and_buy_round_trip() {
    let mut pallet = standard();
    assert_eq!(pallet.create(1), Ok(()));
    assert_eq!(pallet.sell(1, 0, Some(1_500)), Ok(()));
    assert_eq!(pallet.buy(2, 0), Ok(()));
    assert_eq!(pallet.kitties_list_for_sales(0), None);
    assert_eq!(pallet.owner(0), Some(2));
    assert_eq!(reserved(&pallet, 1), 0);
    assert_eq!(reserved(&pallet, 2), 10_000);
    assert_eq!(free(&pallet, 1), 10_000_000_000 + 1_500);
    assert_eq!(free(&pallet, 2), 10_000_000_000 - 10_000 - 1_500);
    assert_eq!(
        pallet.events().to_vec(),
        vec![
            Event::KittyCreate(1, 0),
            Event::KittySell(1, 0, Some(1_500)),
            Event::KittyTransfer(1, 2, 0),
        ]
    );
    // bought once, it is off the market
    assert_eq!(pallet.buy(1, 0), Err(Error::NotForSale));
}

#[test]
fn buy_own_listing_changes_nothing() {
    let mut pallet = standard();
    assert_eq!(pallet.create(1), Ok(()));
    assert_eq!(pallet.sell(1, 0, Some(1_500)), Ok(()));
    assert_eq!(pallet.buy(1, 0), Err(Error::BuyerIsOwner));
    assert_eq!(pallet.owner(0), Some(1));
    assert_eq!(pallet.kitties_list_for_sales(0), Some(1_500));
    assert_eq!((free(&pallet, 1), reserved(&pallet, 1)), (RICH - STAKE, STAKE));
    assert_eq!(pallet.events().len(), 2);
    // an owner cannot buy an unlisted kitty of theirs either
    assert_eq!(pallet.sell(1, 0, None), Ok(()));
    assert_eq!(pallet.buy(1, 0), Err(Error::BuyerIsOwner));
}

#[test]
fn buy_of_a_missing_kitty_is_refused() {
    let mut pallet = standard();
    assert_eq!(pallet.buy(2, 0), Err(Error::InvalidKittyIndex));
    assert_eq!(pallet.create(1), Ok(()));
    assert_eq!(pallet.buy(2, 1), Err(Error::InvalidKittyIndex));
    assert!(!pallet.events().contains(&Event::KittyTransfer(1, 2, 1)));
}

#[test]
fn buy_of_a_kitty_never_listed_is_refused() {
    let mut pallet = standard();
    assert_eq!(pallet.create(1), Ok(()));
    assert_eq!(pallet.buy(2, 0), Err(Error::NotForSale));
    assert_eq!(pallet.owner(0), Some(1));
}

#[test]
fn buy_needs_more_than_price_and_stake() {
    // exactly price and stake is not enough
    let mut pallet = funded(&[(1, RICH), (5, 11_500), (6, 11_501)], 0);
    assert_eq!(pallet.create(1), Ok(()));
    assert_eq!(pallet.sell(1, 0, Some(1_500)), Ok(()));
    assert_eq!(pallet.buy(5, 0), Err(Error::NotEnoughBalanceForBuying));
    assert_eq!((free(&pallet, 5), reserved(&pallet, 5)), (11_500, 0));
    assert_eq!(pallet.owner(0), Some(1));
    assert_eq!(pallet.kitties_list_for_sales(0), Some(1_500));
    assert_eq!(pallet.buy(6, 0), Ok(()));
    assert_eq!((free(&pallet, 6), reserved(&pallet, 6)), (1, 10_000));
    assert_eq!(pallet.owner(0), Some(6));
}

#[test]
fn buy_at_a_price_beyond_all_balances_is_refused() {
    let mut pallet = standard();
    assert_eq!(pallet.create(1), Ok(()));
    assert_eq!(pallet.sell(1, 0, Some(u128::MAX)), Ok(()));
    assert_eq!(pallet.buy(2, 0), Err(Error::NotEnoughBalanceForBuying));
    assert_eq!(pallet.sell(1, 0, Some(u128::MAX - 10_000)), Ok(()));
    assert_eq!(pallet.buy(2, 0), Err(Error::NotEnoughBalanceForBuying));
    assert_eq!((free(&pallet, 2), reserved(&pallet, 2)), (RICH, 0));
}

#[test]
fn buy_at_price_zero() {
    let mut pallet = standard();
    assert_eq!(pallet.create(1), Ok(()));
    assert_eq!(pallet.sell(1, 0, Some(0)), Ok(()));
    assert_eq!(pallet.buy(2, 0), Ok(()));
    assert_eq!((free(&pallet, 1), reserved(&pallet, 1)), (RICH, 0));
    assert_eq!((free(&pallet, 2), reserved(&pallet, 2)), (RICH - STAKE, STAKE));
}

#[test]
fn buy_refused_by_the_host_at_payment_changes_nothing() {
    // the buyer may not fall below the minimum balance by paying
    let mut pallet = funded(&[(1, RICH), (5, 12_000)], 11_000);
    assert_eq!(pallet.create(1), Ok(()));
    assert_eq!(pallet.sell(1, 0, Some(1_500)), Ok(()));
    let events = pallet.events().to_vec();
    assert_eq!(pallet.buy(5, 0), Err(Error::NotEnoughBalanceForBuying));
    assert_eq!(pallet.owner(0), Some(1));
    assert_eq!(pallet.kitties_list_for_sales(0), Some(1_500));
    assert_eq!(pallet.kitties_count(), Some(1));
    assert_eq!(pallet.events().to_vec(), events);
    // the stakes that had moved before the payment was tried are back
    assert_eq!((free(&pallet, 5), reserved(&pallet, 5)), (12_000, 0));
    assert_eq!((free(&pallet, 1), reserved(&pallet, 1)), (RICH - STAKE, STAKE));
    // with a smaller price the same buyer gets the kitty
    assert_eq!(pallet.sell(1, 0, Some(1_000)), Ok(()));
    assert_eq!(pallet.buy(5, 0), Ok(()));
    assert_eq!((free(&pallet, 5), reserved(&pallet, 5)), (1_000, 10_000));
    assert_eq!((free(&pallet, 1), reserved(&pallet, 1)), (RICH + 1_000, 0));
}

#[test]
fn buy_refused_for_the_minimum_balance_of_a_rich_buyer_changes_nothing() {
    let mut pallet = funded(&[(1, RICH), (2, RICH)], RICH);
    assert_eq!(pallet.create(1), Ok(()));
    assert_eq!(pallet.sell(1, 0, Some(1_500)), Ok(()));
    assert_eq!(pallet.buy(2, 0), Err(Error::NotEnoughBalanceForBuying));
    assert_eq!((free(&pallet, 2), reserved(&pallet, 2)), (RICH, 0));
    assert_eq!((free(&pallet, 1), reserved(&pallet, 1)), (RICH - STAKE, STAKE));
    assert_eq!(pallet.owner(0), Some(1));
    assert_eq!(pallet.kitties_list_for_sales(0), Some(1_500));
}

#[test]
fn buy_refused_where_the_seller_cannot_hold_the_price_changes_nothing() {
    let mut pallet = funded(&[(1, u128::MAX), (2, RICH)], 0);
    assert_eq!(pallet.create(1), Ok(()));
    assert_eq!(pallet.sell(1, 0, Some(1)), Ok(()));
    assert_eq!(pallet.buy(2, 0), Err(Error::NotEnoughBalanceForBuying));
    assert_eq!((free(&pallet, 2), reserved(&pallet, 2)), (RICH, 0));
    assert_eq!((free(&pallet, 1), reserved(&pallet, 1)), (u128::MAX - STAKE, STAKE));
    assert_eq!(pallet.owner(0), Some(1));
    // at price zero nothing has to fit
    assert_eq!(pallet.sell(1, 0, Some(0)), Ok(()));
    assert_eq!(pallet.buy(2, 0), Ok(()));
    assert_eq!((free(&pallet, 1), reserved(&pallet, 1)), (u128::MAX, 0));
}

#[test]
fn listing_survives_a_transfer() {
    let mut pallet = standard();
    assert_eq!(pallet.create(1), Ok(()));
    assert_eq!(pallet.sell(1, 0, Some(1_500)), Ok(()));
    assert_eq!(pallet.transfer(1, 2, 0), Ok(()));
    assert_eq!(pallet.kitties_list_for_sales(0), Some(1_500));
    assert_eq!(pallet.buy(2, 0), Err(Error::BuyerIsOwner));
    assert_eq!(pallet.buy(1, 0), Ok(()));
    assert_eq!(pallet.owner(0), Some(1));
    assert_eq!(free(&pallet, 2), RICH + 1_500);
}

#[test]
fn reserved_balance_is_one_stake_per_kitty_owned() {
    let mut pallet = standard();
    let owned = |pallet: &Pallet<MemoryHost>, who: u64| -> u128 {
        let count = pallet.kitties_count().unwrap_or(0);
        (0..count).filter(|id| pallet.owner(*id) == Some(who)).count() as u128
    };
    let check = |pallet: &Pallet<MemoryHost>| {
        for who in [1u64, 2, 3] {
            assert_eq!(pallet.host().reserved_balance(who), STAKE * owned(pallet, who));
        }
        let total: u128 = [1u64, 2, 3].iter().map(|w| pallet.host().reserved_balance(*w)).sum();
        assert_eq!(total, STAKE * pallet.kitties_count().unwrap_or(0) as u128);
    };
    check(&pallet);
    assert_eq!(pallet.create(1), Ok(()));
    check(&pallet);
    assert_eq!(pallet.create(1), Ok(()));
    check(&pallet);
    assert_eq!(pallet.create(2), Ok(()));
    check(&pallet);
    assert_eq!(pallet.breed(2, 0, 1), Ok(()));
    check(&pallet);
    assert_eq!(pallet.transfer(1, 2, 0), Ok(()));
    check(&pallet);
    assert_eq!(pallet.transfer(2, 2, 0), Ok(()));
    check(&pallet);
    assert_eq!(pallet.sell(1, 1, Some(10)), Ok(()));
    check(&pallet);
    assert_eq!(pallet.buy(2, 1), Ok(()));
    check(&pallet);
    assert_eq!(pallet.create(3), Err(Error::NotEnoughBalanceForStaking));
    assert_eq!(pallet.transfer(2, 3, 0), Err(Error::NotEnoughBalanceForStaking));
    assert_eq!(pallet.buy(3, 1), Err(Error::NotForSale));
    check(&pallet);
    assert_eq!(pallet.sell(2, 1, Some(u128::MAX - 20_000)), Ok(()));
    assert_eq!(pallet.buy(1, 1), Err(Error::NotEnoughBalanceForBuying));
    check(&pallet);
    assert_eq!(reserved(&pallet, 1), 0);
    assert_eq!(reserved(&pallet, 2), 4 * STAKE);
}

#[test]
fn a_new_ledger_is_empty() {
    let pallet = Pallet::new(MemoryHost::new(STAKE, 500));
    assert_eq!(pallet.kitties_count(), None);
    assert!(pallet.kitties(0).is_none());
    assert_eq!(pallet.owner(0), None);
    assert_eq!(pallet.kitties_list_for_sales(0), None);
    assert!(pallet.events().is_empty());
    assert_eq!(pallet.host().stake_for_each_kitty(), STAKE);
    let started = Pallet::with_kitties_count(MemoryHost::new(STAKE, 500), 0);
    assert_eq!(started.kitties_count(), Some(0));
    assert!(started.kitties(0).is_none());
}

#[test]
fn counter_set_to_zero_mints_index_zero() {
    let mut host = MemoryHost::new(STAKE, 500);
    assert!(host.deposit(1, RICH));
    let mut pallet = Pallet::with_kitties_count(host, 0);
    assert_eq!(pallet.create(1), Ok(()));
    assert_eq!(pallet.owner(0), Some(1));
    assert_eq!(pallet.kitties_count(), Some(1));
}

#[test]
fn a_stake_of_zero_costs_nothing() {
    let mut pallet = Pallet::new(MemoryHost::new(0, 0));
    assert_eq!(pallet.create(4), Ok(()));
    assert_eq!(pallet.transfer(4, 5, 0), Ok(()));
    assert_eq!(pallet.owner(0), Some(5));
    assert_eq!((free(&pallet, 4), reserved(&pallet, 4)), (0, 0));
    assert_eq!((free(&pallet, 5), reserved(&pallet, 5)), (0, 0));
    assert_eq!(pallet.sell(5, 0, Some(0)), Ok(()));
    // the buyer's free balance must exceed price and stake, also where both are nothing
    assert_eq!(pallet.buy(4, 0), Err(Error::NotEnoughBalanceForBuying));
}
