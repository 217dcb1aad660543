use erc6909::{
    Address, Erc6909, Erc6909Supply, IErc6909, IErc6909Mintable, IErc6909Supply, MyToken, U256,
};

fn addr_fill(b: u8) -> Address {
    Address::new(u32::from_be_bytes([b; 4]), u128::from_be_bytes([b; 16]))
}

fn approve_then_pull<T: IErc6909>(t: &mut T, owner: Address, spender: Address, id: U256) {
    t.approve(owner, spender, id, U256::from_u64(30)).unwrap();
    t.transfer_from(spender, owner, spender, id, U256::from_u64(20)).unwrap();
    assert_eq!(t.allowance(owner, spender, id), U256::from_u64(10));
    assert_eq!(t.balance_of(spender, id), U256::from_u64(20));
}

fn mint_and_check<T: IErc6909Mintable>(t: &mut T, owner: Address, id: U256) {
    t.mint(owner, owner, id, U256::from_u64(100)).unwrap();
    assert_eq!(t.balance_of(owner, id), U256::from_u64(100));
    assert_eq!(t.total_supply(id), U256::from_u64(100));
}

#[test]
fn core_ledger_serves_the_transfer_interface() {
    let mut t = Erc6909::new();
    let a = addr_fill(0x11);
    let b = addr_fill(0x22);
    let id = U256::from_u64(6);
    t.mint(a, a, id, U256::from_u64(100)).unwrap();
    approve_then_pull(&mut t, a, b, id);
}

#[test]
fn supply_tracker_serves_the_mint_interface() {
    let mut t = Erc6909Supply::new();
    let a = addr_fill(0x11);
    let b = addr_fill(0x22);
    let id = U256::from_u64(6);
    mint_and_check(&mut t, a, id);
    approve_then_pull(&mut t, a, b, id);
}

#[test]
fn composite_serves_the_mint_interface() {
    let mut t = MyToken::new();
    let a = addr_fill(0x11);
    let b = addr_fill(0x22);
    let id = U256::from_u64(6);
    mint_and_check(&mut t, a, id);
    approve_then_pull(&mut t, a, b, id);
}
