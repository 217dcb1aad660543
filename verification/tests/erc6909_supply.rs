use erc6909::{Address, Erc6909Supply, Error, U256};

fn addr_fill(b: u8) -> Address {
    Address::new(u32::from_be_bytes([b; 4]), u128::from_be_bytes([b; 16]))
}

#[test]
fn initial_total_is_zero() {
    let c = Erc6909Supply::new();
    let id = U256::from_u64(1);
    assert_eq!(c.total_supply(id), U256::zero());
}

#[test]
fn mint_increases_total() {
    let mut c = Erc6909Supply::new();
    let owner = addr_fill(0xAA);
    let id = U256::from_u64(7);
    let amount = U256::from_u64(42);
    c.mint(owner, owner, id, amount).unwrap();
    assert_eq!(c.total_supply(id), amount);
}

#[test]
fn burn_decreases_total() {
    let mut c = Erc6909Supply::new();
    let owner = addr_fill(0xAA);
    let id = U256::from_u64(10);
    let minted_amt = U256::from_u64(50);
    let burn_amt = U256::from_u64(15);
    c.mint(owner, owner, id, minted_amt).unwrap();
    c.burn(owner, owner, id, burn_amt).unwrap();
    assert_eq!(c.total_supply(id), U256::from_u64(35));
}

#[test]
fn burn_without_mint_reverts() {
    let mut c = Erc6909Supply::new();
    let owner = addr_fill(0xAA);
    let id = U256::from_u64(99);
    assert!(c.burn(owner, owner, id, U256::one()).is_err());
}

#[test]
fn mint_increases_total_supply() {
    let mut ext = Erc6909Supply::new();
    let caller = addr_fill(0xAA);
    let id = U256::from_u64(42);
    let amount = U256::from_u64(7);
    ext.mint(caller, caller, id, amount).unwrap();
    assert_eq!(ext.total_supply(id), amount);
}

#[test]
fn burn_decreases_total_supply() {
    let mut ext = Erc6909Supply::new();
    let caller = addr_fill(0xAA);
    let id = U256::from_u64(100);
    ext.mint(caller, caller, id, U256::from_u64(10)).unwrap();
    ext.burn(caller, caller, id, U256::from_u64(3)).unwrap();
    assert_eq!(ext.total_supply(id), U256::from_u64(7));
}

#[test]
fn mint_reverts_for_zero_caller_or_receiver() {
    let mut ext = Erc6909Supply::new();
    let zero = Address::zero();
    let id = U256::one();
    assert_eq!(ext.mint(zero, zero, id, U256::one()), Err(Error::InvalidApprover));
}

#[test]
fn burn_reverts_when_underflow() {
    let mut ext = Erc6909Supply::new();
    let caller = addr_fill(0xAA);
    let id = U256::from_u64(5);
    assert_eq!(ext.burn(caller, caller, id, U256::one()), Err(Error::InsufficientBalance));
}

#[test]
fn supply_tracks_sum_of_balances() {
    let mut c = Erc6909Supply::new();
    let a = addr_fill(0xAA);
    let b = addr_fill(0xBB);
    let id = U256::from_u64(3);
    let other = U256::from_u64(4);
    c.mint(a, a, id, U256::from_u64(60)).unwrap();
    c.mint(a, b, id, U256::from_u64(40)).unwrap();
    c.mint(a, a, other, U256::from_u64(5)).unwrap();
    c.transfer(a, b, id, U256::from_u64(25)).unwrap();
    c.burn(b, b, id, U256::from_u64(10)).unwrap();
    // supply for each identifier equals the balances summed over owners
    let bal_a = c.balance_of(a, id);
    let bal_b = c.balance_of(b, id);
    assert_eq!(bal_a, U256::from_u64(35));
    assert_eq!(bal_b, U256::from_u64(55));
    assert_eq!(c.total_supply(id), U256::from_u64(90));
    assert_eq!(c.total_supply(other), U256::from_u64(5));
}

#[test]
fn supply_mint_overflow_is_rejected_atomically() {
    let mut c = Erc6909Supply::new();
    let a = addr_fill(0xAA);
    let b = addr_fill(0xBB);
    let id = U256::from_u64(9);
    let max = U256::new(u128::MAX, u128::MAX);
    c.mint(a, a, id, max).unwrap();
    // the supply counter would overflow: nothing may change
    assert_eq!(c.mint(a, b, id, U256::one()), Err(Error::ArithmeticOverflow));
    assert_eq!(c.balance_of(b, id), U256::zero());
    assert_eq!(c.total_supply(id), max);
}
