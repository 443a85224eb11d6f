use xrc20::account::AccountId;
use xrc20::effect::Effect;
use xrc20::ledger::{Text, Xrc20};

#[test]
fn deployment_works() {
    let alice = AccountId::from([0x1; 32]);
    let name: Text = "ChainX".as_bytes().to_vec();
    let symbol: Text = "PCX".as_bytes().to_vec();
    let decimals: u16 = 18;

    // Deploy the ledger with some `init_value`
    let xrc20 = Xrc20::new(alice, 1234, name.clone(), symbol.clone(), decimals);
    // Check that the `total_supply` is `init_value`
    assert_eq!(xrc20.total_supply(), 1234);
    // Check that the `name` is `name`
    assert_eq!(xrc20.name(), name);
    // Check that the `symbol` is `symbol`
    assert_eq!(xrc20.symbol(), symbol);
    // Check that the `decimals` is `decimals`
    assert_eq!(xrc20.decimals(), decimals);
    // Check that `balance_of` Alice is `init_value`
    assert_eq!(xrc20.balance_of(alice), 1234);
}

#[test]
fn transfer_works() {
    let alice = AccountId::from([0x1; 32]);
    let bob = AccountId::from([0x2; 32]);
    let name: Text = "ChainX".as_bytes().to_vec();
    let symbol: Text = "PCX".as_bytes().to_vec();
    let decimals: u16 = 18;

    let mut xrc20 = Xrc20::new(alice, 1234, name.clone(), symbol.clone(), decimals);
    // Alice does not have enough funds for this
    assert_eq!(xrc20.transfer(alice, bob, 4321), false);
    // Alice can do this though
    assert_eq!(xrc20.transfer(alice, bob, 234), true);
    // Check Alice and Bob have the expected balance
    assert_eq!(xrc20.balance_of(alice), 1000);
    assert_eq!(xrc20.balance_of(bob), 234);
}

#[test]
fn allowance_works() {
    let alice = AccountId::from([0x1; 32]);
    let bob = AccountId::from([0x2; 32]);
    let charlie = AccountId::from([0x3; 32]);
    let name: Text = "ChainX".as_bytes().to_vec();
    let symbol: Text = "PCX".as_bytes().to_vec();
    let decimals: u16 = 18;

    let mut xrc20 = Xrc20::new(alice, 1234, name.clone(), symbol.clone(), decimals);
    // Bob does not have an allowance from Alice's balance
    assert_eq!(xrc20.allowance(alice, bob), 0);
    // Thus, Bob cannot transfer out of Alice's account
    assert_eq!(xrc20.transfer_from(bob, alice, bob, 1), false);
    // Alice can approve bob for some of her funds
    assert_eq!(xrc20.approve(alice, bob, 20), true);
    // And the allowance reflects that correctly
    assert_eq!(xrc20.allowance(alice, bob), 20);
    // Charlie cannot send on behalf of Bob
    assert_eq!(xrc20.transfer_from(charlie, alice, bob, 10), false);
    // Bob cannot transfer more than he is allowed
    assert_eq!(xrc20.transfer_from(bob, alice, charlie, 25), false);
    // A smaller amount should work though
    assert_eq!(xrc20.transfer_from(bob, alice, charlie, 10), true);
    // Check that the allowance is updated
    assert_eq!(xrc20.allowance(alice, bob), 10);
    // and the balance transferred to the right person
    assert_eq!(xrc20.balance_of(charlie), 10);
}

#[test]
fn events_work() {
    let alice = AccountId::from([0x1; 32]);
    let bob = AccountId::from([0x2; 32]);
    let name: Text = "ChainX".as_bytes().to_vec();
    let symbol: Text = "PCX".as_bytes().to_vec();
    let decimals: u16 = 18;

    // No events to start
    let mut emitted: Vec<Effect> = Vec::new();
    assert_eq!(emitted.iter().count(), 0);
    // Event should be emitted for initial minting
    let mut xrc20 = Xrc20::new(alice, 1234, name.clone(), symbol.clone(), decimals);
    emitted.extend(xrc20.take_effects());
    assert_eq!(emitted.iter().count(), 1);
    // Event should be emitted for approvals
    assert_eq!(xrc20.approve(alice, bob, 20), true);
    emitted.extend(xrc20.take_effects());
    assert_eq!(emitted.iter().count(), 2);
    // Event should be emitted for transfers
    assert_eq!(xrc20.transfer(alice, bob, 10), true);
    emitted.extend(xrc20.take_effects());
    assert_eq!(emitted.iter().count(), 3);
}

#[test]
fn destroy_work() {
    let alice = AccountId::from([0x1; 32]);
    let name: Text = "ChainX".as_bytes().to_vec();
    let symbol: Text = "PCX".as_bytes().to_vec();
    let decimals: u16 = 18;

    let mut xrc20 = Xrc20::new(alice, 1234, name.clone(), symbol.clone(), decimals);
    assert_eq!(xrc20.destroy(alice, 234), true);
    assert_eq!(xrc20.balance_of(alice), 1000);
    assert_eq!(xrc20.total_supply(), 1000);
}
