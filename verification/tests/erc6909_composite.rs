use erc6909::{Address, Error, MyToken, U256};

fn addr_fill(b: u8) -> Address {
    Address::new(u32::from_be_bytes([b; 4]), u128::from_be_bytes([b; 16]))
}

#[test]
fn metadata_round_trip() {
    let mut c = MyToken::new();
    let samuel = addr_fill(0xAA);
    let id = U256::from_u64(42);
    let uri = b"ipfs://foo".to_vec();
    c.set_token_uri(samuel, id, uri.clone()).unwrap();
    assert_eq!(c.token_uri(id), uri);
}

#[test]
fn enumeration_handles_duplicates() {
    let mut c = MyToken::new();
    let samuel = addr_fill(0xAA);
    let id = U256::from_u64(99);
    c.mint(samuel, samuel, id, U256::one()).unwrap();
    c.mint(samuel, samuel, id, U256::one()).unwrap();
    assert_eq!(c.total_ids(), U256::one());
}

#[test]
fn out_of_bounds_index_returns_zero() {
    let c = MyToken::new();
    assert_eq!(c.id_by_index(U256::from_u64(5)), U256::zero());
}

#[test]
fn invalid_zero_caller_reverts() {
    let mut c = MyToken::new();
    let id = U256::one();
    let zero = Address::zero();
    assert!(c.set_token_uri(zero, id, b"x".to_vec()).is_err());
    assert!(c.mint(zero, zero, id, U256::one()).is_err());
    assert!(c.burn(zero, zero, id, U256::one()).is_err());
}

#[test]
fn mint_approve_transfer_from_burn_scenario() {
    // mint 100 of one identifier to A; approve B for 30; B pulls 20;
    // then burn 10 from A
    let mut c = MyToken::new();
    let a = addr_fill(0xAA);
    let b = addr_fill(0xBB);
    let id = U256::from_u64(7);

    c.mint(a, a, id, U256::from_u64(100)).unwrap();
    assert_eq!(c.balance_of(a, id), U256::from_u64(100));
    assert_eq!(c.total_supply(id), U256::from_u64(100));

    c.approve(a, b, id, U256::from_u64(30)).unwrap();
    assert!(c.transfer_from(b, a, b, id, U256::from_u64(20)).unwrap());
    assert_eq!(c.balance_of(a, id), U256::from_u64(80));
    assert_eq!(c.balance_of(b, id), U256::from_u64(20));
    assert_eq!(c.allowance(a, b, id), U256::from_u64(10));

    c.burn(a, a, id, U256::from_u64(10)).unwrap();
    assert_eq!(c.balance_of(a, id), U256::from_u64(70));
    assert_eq!(c.total_supply(id), U256::from_u64(90));
}

#[test]
fn minting_records_the_identifier_once() {
    let mut c = MyToken::new();
    let a = addr_fill(0xAA);
    let id = U256::from_u64(12);
    c.mint(a, a, id, U256::from_u64(5)).unwrap();
    c.mint(a, a, id, U256::from_u64(5)).unwrap();
    assert_eq!(c.total_ids(), U256::one());
    assert_eq!(c.id_by_index(U256::zero()), id);
    assert_eq!(c.total_supply(id), U256::from_u64(10));
}

#[test]
fn failed_mint_leaves_no_partial_state() {
    let mut c = MyToken::new();
    let a = addr_fill(0xAA);
    let zero = Address::zero();
    let id = U256::from_u64(12);
    assert_eq!(c.mint(a, zero, id, U256::one()), Err(Error::InvalidReceiver));
    // neither supply nor enumeration recorded anything
    assert_eq!(c.total_supply(id), U256::zero());
    assert_eq!(c.total_ids(), U256::zero());
}

#[test]
fn burning_never_unrecords_an_identifier() {
    let mut c = MyToken::new();
    let a = addr_fill(0xAA);
    let id = U256::from_u64(12);
    c.mint(a, a, id, U256::from_u64(5)).unwrap();
    c.burn(a, a, id, U256::from_u64(5)).unwrap();
    assert_eq!(c.total_supply(id), U256::zero());
    assert_eq!(c.total_ids(), U256::one());
    assert_eq!(c.id_by_index(U256::zero()), id);
}

#[test]
fn zero_roles_give_matching_errors_and_mutate_nothing() {
    let mut c = MyToken::new();
    let a = addr_fill(0xAA);
    let zero = Address::zero();
    let id = U256::from_u64(3);
    let one = U256::one();
    c.mint(a, a, id, U256::from_u64(10)).unwrap();

    assert_eq!(c.approve(zero, a, id, one), Err(Error::InvalidApprover));
    assert_eq!(c.approve(a, zero, id, one), Err(Error::InvalidSpender));
    assert_eq!(c.set_operator(zero, a, true), Err(Error::InvalidApprover));
    assert_eq!(c.set_operator(a, zero, true), Err(Error::InvalidSpender));
    assert_eq!(c.transfer(zero, a, id, one), Err(Error::InvalidSender));
    assert_eq!(c.transfer(a, zero, id, one), Err(Error::InvalidReceiver));
    assert_eq!(c.transfer_from(zero, a, a, id, one), Err(Error::InvalidSpender));
    assert_eq!(c.transfer_from(a, zero, a, id, one), Err(Error::InvalidSender));
    assert_eq!(c.transfer_from(a, a, zero, id, one), Err(Error::InvalidReceiver));
    assert_eq!(c.mint(zero, a, id, one), Err(Error::InvalidApprover));
    assert_eq!(c.mint(a, zero, id, one), Err(Error::InvalidReceiver));
    assert_eq!(c.burn(zero, a, id, one), Err(Error::InvalidApprover));
    assert_eq!(c.burn(a, zero, id, one), Err(Error::InvalidSender));
    assert_eq!(c.set_token_uri(zero, id, b"x".to_vec()), Err(Error::InvalidApprover));

    assert_eq!(c.balance_of(a, id), U256::from_u64(10));
    assert_eq!(c.total_supply(id), U256::from_u64(10));
    assert_eq!(c.total_ids(), U256::one());
    assert_eq!(c.token_uri(id), Vec::<u8>::new());
}
