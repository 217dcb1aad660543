use erc6909::{Address, Erc6909MetadataUri, U256};

fn addr_fill(b: u8) -> Address {
    Address::new(u32::from_be_bytes([b; 4]), u128::from_be_bytes([b; 16]))
}

#[test]
fn set_and_read_back() {
    let mut c = Erc6909MetadataUri::new();
    let samuel = addr_fill(0xAA);
    let id = U256::from_u64(42);
    let uri = b"motsu://token/42".to_vec();
    c.set_token_uri(samuel, id, uri.clone()).unwrap();
    let got = c.token_uri(id);
    assert_eq!(got, uri);
}

#[test]
fn zero_caller_fails() {
    let mut c = Erc6909MetadataUri::new();
    let zero = Address::zero();
    assert!(c.set_token_uri(zero, U256::from_u64(1), b"bad".to_vec()).is_err());
}

#[test]
fn rejected_set_stores_nothing() {
    let mut c = Erc6909MetadataUri::new();
    let zero = Address::zero();
    let id = U256::from_u64(1);
    let _ = c.set_token_uri(zero, id, b"bad".to_vec());
    assert_eq!(c.token_uri(id), Vec::<u8>::new());
}

#[test]
fn round_trip_at_many_lengths() {
    let mut c = Erc6909MetadataUri::new();
    let caller = addr_fill(0x33);
    for len in [0usize, 1, 7, 31, 32, 33, 255, 256, 300] {
        let id = U256::from_u64(len as u64);
        let bytes: Vec<u8> = (0..len).map(|i| (i % 251) as u8).collect();
        c.set_token_uri(caller, id, bytes.clone()).unwrap();
        assert_eq!(c.token_uri(id), bytes);
    }
}

#[test]
fn set_fully_overwrites_previous_content() {
    let mut c = Erc6909MetadataUri::new();
    let caller = addr_fill(0x33);
    let id = U256::from_u64(9);
    c.set_token_uri(caller, id, b"a-rather-long-initial-string".to_vec()).unwrap();
    c.set_token_uri(caller, id, b"short".to_vec()).unwrap();
    assert_eq!(c.token_uri(id), b"short".to_vec());
}

#[test]
fn unset_identifier_reads_empty() {
    let c = Erc6909MetadataUri::new();
    assert_eq!(c.token_uri(U256::from_u64(77)), Vec::<u8>::new());
}

#[test]
fn entries_are_independent() {
    let mut c = Erc6909MetadataUri::new();
    let caller = addr_fill(0x33);
    c.set_token_uri(caller, U256::from_u64(1), b"one".to_vec()).unwrap();
    c.set_token_uri(caller, U256::from_u64(2), b"two".to_vec()).unwrap();
    c.set_token_uri(caller, U256::from_u64(1), b"uno".to_vec()).unwrap();
    assert_eq!(c.token_uri(U256::from_u64(1)), b"uno".to_vec());
    assert_eq!(c.token_uri(U256::from_u64(2)), b"two".to_vec());
}
