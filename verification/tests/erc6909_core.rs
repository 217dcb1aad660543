use erc6909::{Address, Erc6909, Error, U256};

fn addr_fill(b: u8) -> Address {
    Address::new(u32::from_be_bytes([b; 4]), u128::from_be_bytes([b; 16]))
}

#[test]
fn erc6909_integration_full_mint_transfer_burn_flow() {
    let mut token = Erc6909::new();
    let owner = addr_fill(0xAA);
    let recipient = addr_fill(0xBB);
    let id = U256::from_u64(7);

    // mint
    token.mint(owner, owner, id, U256::from_u64(100)).unwrap();
    assert_eq!(token.balance_of(owner, id), U256::from_u64(100));

    // approve + transfer_from
    token.approve(owner, recipient, id, U256::from_u64(30)).unwrap();
    assert!(token.transfer_from(recipient, owner, recipient, id, U256::from_u64(20)).unwrap());
    assert_eq!(token.balance_of(recipient, id), U256::from_u64(20));
    assert_eq!(token.allowance(owner, recipient, id), U256::from_u64(10));

    // burn
    token.burn(owner, owner, id, U256::from_u64(10)).unwrap();
    assert_eq!(token.balance_of(owner, id), U256::from_u64(70));
}

#[test]
fn transfer_preserves_pair_total() {
    let mut token = Erc6909::new();
    let a = addr_fill(0x11);
    let b = addr_fill(0x22);
    let id = U256::from_u64(1);
    token.mint(a, a, id, U256::from_u64(90)).unwrap();
    token.mint(a, b, id, U256::from_u64(10)).unwrap();
    assert!(token.transfer(a, b, id, U256::from_u64(33)).unwrap());
    let bal_a = token.balance_of(a, id);
    let bal_b = token.balance_of(b, id);
    assert_eq!(bal_a, U256::from_u64(57));
    assert_eq!(bal_b, U256::from_u64(43));
}

#[test]
fn approve_is_absolute_overwrite() {
    let mut token = Erc6909::new();
    let owner = addr_fill(0x11);
    let spender = addr_fill(0x22);
    let id = U256::from_u64(5);
    token.approve(owner, spender, id, U256::from_u64(50)).unwrap();
    assert_eq!(token.allowance(owner, spender, id), U256::from_u64(50));
    // a second approve replaces, it does not add
    token.approve(owner, spender, id, U256::from_u64(30)).unwrap();
    assert_eq!(token.allowance(owner, spender, id), U256::from_u64(30));
}

#[test]
fn operator_transfer_keeps_allowance() {
    let mut token = Erc6909::new();
    let owner = addr_fill(0x11);
    let operator = addr_fill(0x22);
    let id = U256::from_u64(5);
    token.mint(owner, owner, id, U256::from_u64(100)).unwrap();
    token.approve(owner, operator, id, U256::from_u64(40)).unwrap();
    token.set_operator(owner, operator, true).unwrap();
    assert!(token.is_operator(owner, operator));
    token.transfer_from(operator, owner, operator, id, U256::from_u64(25)).unwrap();
    // an operator consumes no allowance
    assert_eq!(token.allowance(owner, operator, id), U256::from_u64(40));
}

#[test]
fn non_operator_transfer_decrements_allowance() {
    let mut token = Erc6909::new();
    let owner = addr_fill(0x11);
    let spender = addr_fill(0x22);
    let id = U256::from_u64(5);
    token.mint(owner, owner, id, U256::from_u64(100)).unwrap();
    token.approve(owner, spender, id, U256::from_u64(40)).unwrap();
    token.transfer_from(spender, owner, spender, id, U256::from_u64(25)).unwrap();
    assert_eq!(token.allowance(owner, spender, id), U256::from_u64(15));
}

#[test]
fn insufficient_allowance_is_rejected_before_balances() {
    let mut token = Erc6909::new();
    let owner = addr_fill(0x11);
    let spender = addr_fill(0x22);
    let id = U256::from_u64(5);
    token.mint(owner, owner, id, U256::from_u64(100)).unwrap();
    token.approve(owner, spender, id, U256::from_u64(10)).unwrap();
    assert_eq!(
        token.transfer_from(spender, owner, spender, id, U256::from_u64(11)),
        Err(Error::InsufficientAllowance)
    );
    assert_eq!(token.balance_of(owner, id), U256::from_u64(100));
    assert_eq!(token.allowance(owner, spender, id), U256::from_u64(10));
}

#[test]
fn transfer_more_than_balance_is_rejected() {
    let mut token = Erc6909::new();
    let a = addr_fill(0x11);
    let b = addr_fill(0x22);
    let id = U256::from_u64(5);
    token.mint(a, a, id, U256::from_u64(100)).unwrap();
    assert_eq!(token.transfer(a, b, id, U256::from_u64(101)), Err(Error::InsufficientBalance));
    assert_eq!(token.balance_of(a, id), U256::from_u64(100));
    assert_eq!(token.balance_of(b, id), U256::zero());
}

#[test]
fn recipient_overflow_aborts_whole_transfer() {
    let mut token = Erc6909::new();
    let a = addr_fill(0x11);
    let b = addr_fill(0x22);
    let id = U256::from_u64(5);
    let max = U256::new(u128::MAX, u128::MAX);
    token.mint(a, a, id, max).unwrap();
    token.mint(a, b, id, U256::one()).unwrap();
    assert_eq!(token.transfer(b, a, id, U256::one()), Err(Error::ArithmeticOverflow));
    // nothing moved
    assert_eq!(token.balance_of(a, id), max);
    assert_eq!(token.balance_of(b, id), U256::one());
}

#[test]
fn self_transfer_changes_nothing() {
    let mut token = Erc6909::new();
    let a = addr_fill(0x11);
    let id = U256::from_u64(5);
    token.mint(a, a, id, U256::from_u64(100)).unwrap();
    assert!(token.transfer(a, a, id, U256::from_u64(60)).unwrap());
    assert_eq!(token.balance_of(a, id), U256::from_u64(100));
}

#[test]
fn set_operator_can_be_cleared() {
    let mut token = Erc6909::new();
    let owner = addr_fill(0x11);
    let operator = addr_fill(0x22);
    assert!(!token.is_operator(owner, operator));
    token.set_operator(owner, operator, true).unwrap();
    assert!(token.is_operator(owner, operator));
    token.set_operator(owner, operator, false).unwrap();
    assert!(!token.is_operator(owner, operator));
}

#[test]
fn zero_addresses_give_the_matching_errors() {
    let mut token = Erc6909::new();
    let a = addr_fill(0x11);
    let zero = Address::zero();
    let id = U256::from_u64(5);
    let one = U256::one();
    token.mint(a, a, id, U256::from_u64(10)).unwrap();

    assert_eq!(token.approve(zero, a, id, one), Err(Error::InvalidApprover));
    assert_eq!(token.approve(a, zero, id, one), Err(Error::InvalidSpender));
    assert_eq!(token.set_operator(zero, a, true), Err(Error::InvalidApprover));
    assert_eq!(token.set_operator(a, zero, true), Err(Error::InvalidSpender));
    assert_eq!(token.transfer(zero, a, id, one), Err(Error::InvalidSender));
    assert_eq!(token.transfer(a, zero, id, one), Err(Error::InvalidReceiver));
    assert_eq!(token.transfer_from(a, zero, a, id, one), Err(Error::InvalidSender));
    assert_eq!(token.transfer_from(a, a, zero, id, one), Err(Error::InvalidReceiver));
    assert_eq!(token.transfer_from(zero, a, a, id, one), Err(Error::InvalidSpender));
    assert_eq!(token.mint(zero, a, id, one), Err(Error::InvalidApprover));
    assert_eq!(token.mint(a, zero, id, one), Err(Error::InvalidReceiver));
    assert_eq!(token.burn(zero, a, id, one), Err(Error::InvalidApprover));
    assert_eq!(token.burn(a, zero, id, one), Err(Error::InvalidSender));

    // and none of them moved anything
    assert_eq!(token.balance_of(a, id), U256::from_u64(10));
}
