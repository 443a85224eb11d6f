use xrc20::account::{AccountId, AllowanceKey, Key};
use xrc20::effect::Effect;
use xrc20::ledger::Xrc20;
use xrc20::table::Table;

fn alice() -> AccountId {
    AccountId::from([0x1; 32])
}

fn bob() -> AccountId {
    AccountId::from([0x2; 32])
}

fn charlie() -> AccountId {
    AccountId::from([0x3; 32])
}

fn ledger(init: u64) -> Xrc20 {
    Xrc20::new(alice(), init, b"ChainX".to_vec(), b"PCX".to_vec(), 18)
}

fn sum_of(l: &Xrc20, accounts: &[AccountId]) -> u128 {
    accounts.iter().map(|a| l.balance_of(*a) as u128).sum()
}

#[test]
fn zero_identifier_is_reserved() {
    assert!(AccountId::from([0; 32]).is_zero());
    assert!(!alice().is_zero());
    let mut last = [0u8; 32];
    last[31] = 1;
    assert!(!AccountId::from(last).is_zero());
}

#[test]
fn identifiers_compare_by_bytes() {
    assert!(alice().same(&AccountId::from([0x1; 32])));
    assert!(!alice().same(&bob()));
    let mut near = [0x1u8; 32];
    near[31] = 0x2;
    assert!(!alice().same(&AccountId::from(near)));
    assert_eq!(alice().to_bytes(), [0x1; 32]);
}

#[test]
fn allowance_keys_compare_by_both_parties() {
    let k = AllowanceKey { owner: alice(), spender: bob() };
    assert!(k.same(&AllowanceKey { owner: alice(), spender: bob() }));
    assert!(!k.same(&AllowanceKey { owner: bob(), spender: alice() }));
    assert!(!k.same(&AllowanceKey { owner: alice(), spender: charlie() }));
    assert!(!k.same(&AllowanceKey { owner: charlie(), spender: bob() }));
}

#[test]
fn table_reads_zero_for_absent_keys() {
    let t: Table<AccountId> = Table::new();
    assert_eq!(t.get(&alice()), 0);
}

#[test]
fn table_insert_replaces() {
    let mut t: Table<AccountId> = Table::new();
    t.insert(alice(), 5);
    t.insert(bob(), 7);
    assert_eq!(t.get(&alice()), 5);
    assert_eq!(t.get(&bob()), 7);
    t.insert(alice(), 9);
    assert_eq!(t.get(&alice()), 9);
    assert_eq!(t.get(&bob()), 7);
    assert_eq!(t.get(&charlie()), 0);
}

#[test]
fn construction_credits_creator_and_notifies() {
    let l = ledger(1234);
    assert_eq!(l.total_supply(), 1234);
    assert_eq!(l.balance_of(alice()), 1234);
    assert_eq!(l.balance_of(bob()), 0);
    assert_eq!(l.allowance(alice(), bob()), 0);
    assert_eq!(l.balance_of_or_zero(&alice()), 1234);
    assert_eq!(l.allowance_or_zero(&alice(), &bob()), 0);
    assert_eq!(
        l.effects().as_slice(),
        &[Effect::Transfer { from: None, to: Some(alice()), value: 1234 }]
    );
}

#[test]
fn transfer_conserves_the_two_balances() {
    let mut l = ledger(1234);
    let before = l.balance_of(alice()) + l.balance_of(bob());
    assert!(l.transfer(alice(), bob(), 234));
    assert_eq!(l.balance_of(alice()) + l.balance_of(bob()), before);
    assert_eq!(l.total_supply(), 1234);
    assert_eq!(sum_of(&l, &[alice(), bob(), charlie()]), 1234);
}

#[test]
fn unfunded_transfer_changes_nothing() {
    let mut l = ledger(1234);
    l.take_effects();
    assert!(!l.transfer(alice(), bob(), 1235));
    assert_eq!(l.balance_of(alice()), 1234);
    assert_eq!(l.balance_of(bob()), 0);
    assert_eq!(l.total_supply(), 1234);
    assert!(l.effects().is_empty());
    assert!(!l.transfer(bob(), alice(), 1));
    assert!(l.effects().is_empty());
}

#[test]
fn transfer_of_whole_balance() {
    let mut l = ledger(1234);
    assert!(l.transfer(alice(), bob(), 1234));
    assert_eq!(l.balance_of(alice()), 0);
    assert_eq!(l.balance_of(bob()), 1234);
}

#[test]
fn transfer_of_nothing_still_notifies() {
    let mut l = ledger(1234);
    l.take_effects();
    assert!(l.transfer(alice(), bob(), 0));
    assert!(l.transfer(bob(), alice(), 0));
    assert_eq!(l.balance_of(alice()), 1234);
    assert_eq!(l.balance_of(bob()), 0);
    assert_eq!(
        l.effects().as_slice(),
        &[
            Effect::Transfer { from: Some(alice()), to: Some(bob()), value: 0 },
            Effect::Transfer { from: Some(bob()), to: Some(alice()), value: 0 },
        ]
    );
}

#[test]
fn transfer_to_oneself_writes_nothing() {
    let mut l = ledger(1234);
    l.take_effects();
    assert!(l.transfer(alice(), alice(), 234));
    assert_eq!(l.balance_of(alice()), 1234);
    assert_eq!(
        l.effects().as_slice(),
        &[Effect::Transfer { from: Some(alice()), to: Some(alice()), value: 234 }]
    );
    assert!(!l.transfer(alice(), alice(), 1235));
}

#[test]
fn transfer_to_oneself_fails_when_the_sum_is_no_amount() {
    let mut l = ledger(u64::MAX);
    l.take_effects();
    assert!(!l.transfer(alice(), alice(), 1));
    assert!(l.transfer(alice(), alice(), 0));
    assert_eq!(l.balance_of(alice()), u64::MAX);
    assert_eq!(l.effects().len(), 1);
}

#[test]
fn transfer_impl_moves_between_given_accounts() {
    let mut l = ledger(100);
    assert!(l.transfer_impl(alice(), bob(), 40));
    assert!(l.transfer_impl(bob(), charlie(), 15));
    assert_eq!(l.balance_of(alice()), 60);
    assert_eq!(l.balance_of(bob()), 25);
    assert_eq!(l.balance_of(charlie()), 15);
    assert!(!l.transfer_impl(charlie(), alice(), 16));
    assert_eq!(sum_of(&l, &[alice(), bob(), charlie()]), 100);
}

#[test]
fn approve_overwrites() {
    let mut l = ledger(1234);
    l.take_effects();
    assert!(l.approve(alice(), bob(), 20));
    assert!(l.approve(alice(), bob(), 5));
    assert_eq!(l.allowance(alice(), bob()), 5);
    assert_eq!(l.allowance(bob(), alice()), 0);
    assert_eq!(l.allowance(alice(), charlie()), 0);
    assert_eq!(l.balance_of(alice()), 1234);
    assert_eq!(
        l.effects().as_slice(),
        &[
            Effect::Approval { owner: alice(), spender: bob(), value: 20 },
            Effect::Approval { owner: alice(), spender: bob(), value: 5 },
        ]
    );
}

#[test]
fn delegated_transfer_lowers_allowance_by_the_amount() {
    let mut l = ledger(1234);
    assert!(l.approve(alice(), bob(), 20));
    l.take_effects();
    assert!(!l.transfer_from(bob(), alice(), charlie(), 21));
    assert_eq!(l.allowance(alice(), bob()), 20);
    assert!(l.effects().is_empty());
    assert!(l.transfer_from(bob(), alice(), charlie(), 20));
    assert_eq!(l.allowance(alice(), bob()), 0);
    assert_eq!(l.balance_of(alice()), 1214);
    assert_eq!(l.balance_of(charlie()), 20);
    assert_eq!(l.balance_of(bob()), 0);
    assert_eq!(
        l.effects().as_slice(),
        &[Effect::Transfer { from: Some(alice()), to: Some(charlie()), value: 20 }]
    );
    assert!(!l.transfer_from(bob(), alice(), charlie(), 1));
}

#[test]
fn delegated_transfer_without_funds_keeps_allowance() {
    let mut l = ledger(10);
    assert!(l.approve(alice(), bob(), 50));
    assert!(!l.transfer_from(bob(), alice(), charlie(), 11));
    assert_eq!(l.allowance(alice(), bob()), 50);
    assert_eq!(l.balance_of(alice()), 10);
    assert_eq!(l.balance_of(charlie()), 0);
}

#[test]
fn issue_raises_balance_and_supply() {
    let mut l = ledger(1234);
    l.take_effects();
    let contract = charlie();
    assert!(l.issue(contract, contract, bob(), 66));
    assert_eq!(l.balance_of(bob()), 66);
    assert_eq!(l.total_supply(), 1300);
    assert_eq!(sum_of(&l, &[alice(), bob(), charlie()]), 1300);
    assert_eq!(l.effects().as_slice(), &[Effect::Issue { to: bob(), value: 66 }]);
}

#[test]
fn issue_fails_when_the_supply_is_no_amount() {
    let mut l = ledger(u64::MAX - 5);
    l.take_effects();
    let contract = charlie();
    assert!(!l.issue(contract, contract, bob(), 6));
    assert_eq!(l.total_supply(), u64::MAX - 5);
    assert_eq!(l.balance_of(bob()), 0);
    assert!(l.effects().is_empty());
    assert!(l.issue(contract, contract, bob(), 5));
    assert_eq!(l.total_supply(), u64::MAX);
    assert_eq!(l.balance_of(bob()), 5);
}

#[test]
fn issue_of_nothing_notifies_only() {
    let mut l = ledger(u64::MAX);
    l.take_effects();
    let contract = charlie();
    assert!(l.issue(contract, contract, bob(), 0));
    assert_eq!(l.total_supply(), u64::MAX);
    assert_eq!(l.balance_of(bob()), 0);
    assert_eq!(l.effects().as_slice(), &[Effect::Issue { to: bob(), value: 0 }]);
}

#[test]
fn destroy_asks_for_the_conversion() {
    let mut l = ledger(1234);
    l.take_effects();
    assert!(l.destroy(alice(), 234));
    assert_eq!(
        l.effects().as_slice(),
        &[
            Effect::Destroy { owner: alice(), value: 234 },
            Effect::ConvertToAsset { owner: alice(), value: 234 },
        ]
    );
    assert_eq!(sum_of(&l, &[alice(), bob(), charlie()]), 1000);
}

#[test]
fn destroy_of_more_than_held_changes_nothing() {
    let mut l = ledger(1234);
    l.take_effects();
    assert!(!l.destroy(alice(), 1235));
    assert!(!l.destroy(bob(), 1));
    assert_eq!(l.balance_of(alice()), 1234);
    assert_eq!(l.total_supply(), 1234);
    assert!(l.effects().is_empty());
}

#[test]
fn destroy_of_nothing_notifies_only() {
    let mut l = ledger(1234);
    l.take_effects();
    assert!(l.destroy(bob(), 0));
    assert_eq!(l.balance_of(alice()), 1234);
    assert_eq!(l.total_supply(), 1234);
    assert_eq!(l.effects().as_slice(), &[Effect::Destroy { owner: bob(), value: 0 }]);
}

#[test]
fn destroy_of_everything() {
    let mut l = ledger(1234);
    assert!(l.destroy(alice(), 1234));
    assert_eq!(l.balance_of(alice()), 0);
    assert_eq!(l.total_supply(), 0);
}

#[test]
fn taking_effects_empties_the_outbox_only() {
    let mut l = ledger(1234);
    assert!(l.approve(alice(), bob(), 3));
    let taken = l.take_effects();
    assert_eq!(
        taken,
        vec![
            Effect::Transfer { from: None, to: Some(alice()), value: 1234 },
            Effect::Approval { owner: alice(), spender: bob(), value: 3 },
        ]
    );
    assert!(l.effects().is_empty());
    assert!(l.take_effects().is_empty());
    assert_eq!(l.total_supply(), 1234);
    assert_eq!(l.balance_of(alice()), 1234);
    assert_eq!(l.allowance(alice(), bob()), 3);
    assert_eq!(l.name(), b"ChainX".to_vec());
    assert_eq!(l.symbol(), b"PCX".to_vec());
    assert_eq!(l.decimals(), 18);
}

#[test]
fn supply_equals_sum_of_balances_after_a_run() {
    let mut l = ledger(1000);
    let contract = AccountId::from([0x9; 32]);
    assert!(l.transfer(alice(), bob(), 300));
    assert!(l.approve(bob(), charlie(), 120));
    assert!(l.transfer_from(charlie(), bob(), charlie(), 100));
    assert!(l.issue(contract, contract, charlie(), 50));
    assert!(l.destroy(bob(), 200));
    assert!(!l.destroy(bob(), 1));
    assert_eq!(l.balance_of(alice()), 700);
    assert_eq!(l.balance_of(bob()), 0);
    assert_eq!(l.balance_of(charlie()), 150);
    assert_eq!(l.allowance(bob(), charlie()), 20);
    assert_eq!(l.total_supply(), 850);
    assert_eq!(sum_of(&l, &[alice(), bob(), charlie(), contract]), l.total_supply() as u128);
}

#[test]
fn ledger_is_consistent_after_each_operation() {
    let mut l = ledger(1000);
    let contract = AccountId::from([0x9; 32]);
    assert!(l.is_consistent());
    assert!(l.transfer(alice(), bob(), 300));
    assert!(l.is_consistent());
    assert!(l.approve(bob(), charlie(), 120));
    assert!(l.is_consistent());
    assert!(l.transfer_from(charlie(), bob(), charlie(), 100));
    assert!(l.is_consistent());
    assert!(l.issue(contract, contract, charlie(), u64::MAX - 1000));
    assert!(l.is_consistent());
    assert_eq!(l.total_supply(), u64::MAX);
    assert!(l.destroy(charlie(), 7));
    assert!(l.is_consistent());
    assert!(!l.transfer(alice(), bob(), 701));
    assert!(l.is_consistent());
}

#[test]
fn table_total_and_distinct_keys() {
    let mut t: Table<AccountId> = Table::new();
    assert_eq!(t.checked_total(), Some(0));
    t.insert(alice(), u64::MAX - 1);
    t.insert(bob(), 1);
    assert_eq!(t.checked_total(), Some(u64::MAX));
    t.insert(charlie(), 1);
    assert_eq!(t.checked_total(), None);
    t.insert(alice(), 40);
    assert_eq!(t.checked_total(), Some(42));
    assert!(t.keys_distinct());
}
