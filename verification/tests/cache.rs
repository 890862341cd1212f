use web3sniper::chain::cache::{FactCache, TokenFacts, CAP};
use web3sniper::primitives::{Address, U256};

fn addr(n: u32) -> Address {
    let mut bytes = [0u8; 20];
    bytes[16..].copy_from_slice(&n.to_be_bytes());
    Address { bytes }
}

fn facts(sym: &str) -> TokenFacts {
    TokenFacts {
        name: None,
        symbol: Some(sym.to_string()),
        decimals: Some(18),
        total_supply: Some(U256::from_u128(1)),
    }
}

#[test]
fn usefulness() {
    assert!(!TokenFacts::default().is_useful());
    let only_name = TokenFacts { name: Some("n".into()), ..TokenFacts::default() };
    assert!(!only_name.is_useful());
    assert!(facts("X").is_useful());
    let only_supply = TokenFacts { total_supply: Some(U256::from_u128(0)), ..TokenFacts::default() };
    assert!(only_supply.is_useful());
}

#[test]
fn read_after_write() {
    let mut c = FactCache::new();
    assert!(c.get(&addr(1)).is_none());
    c.put(addr(1), facts("WETH"));
    assert_eq!(c.get(&addr(1)).unwrap().symbol.as_deref(), Some("WETH"));
    c.put(addr(1), facts("WETH2"));
    assert_eq!(c.get(&addr(1)).unwrap().symbol.as_deref(), Some("WETH2"));
    assert!(c.get(&addr(2)).is_none());
}

#[test]
fn useless_facts_are_not_stored() {
    let mut c = FactCache::new();
    c.store_if_useful(addr(1), TokenFacts::default());
    assert!(c.get(&addr(1)).is_none());
    c.store_if_useful(addr(1), facts("USDG"));
    assert_eq!(c.get(&addr(1)).unwrap().symbol.as_deref(), Some("USDG"));
}

#[test]
fn entries_survive_a_full_generation() {
    let mut c = FactCache::new();
    c.put(addr(0), facts("FIRST"));
    for n in 1..=(CAP as u32) {
        c.put(addr(n), facts("OTHER"));
        assert_eq!(c.get(&addr(0)).unwrap().symbol.as_deref(), Some("FIRST"), "after {n}");
    }
}

#[test]
fn two_rotations_evict() {
    let mut c = FactCache::new();
    c.put(addr(0), facts("FIRST"));
    for n in 1..=(2 * CAP as u32) {
        c.put(addr(n), facts("OTHER"));
    }
    assert!(c.get(&addr(0)).is_none());
    assert!(c.get(&addr(2 * CAP as u32)).is_some());
}

#[test]
fn reads_give_the_latest_write_across_a_rotation() {
    let mut c = FactCache::new();
    c.put(addr(0), facts("OLD"));
    for n in 1..(CAP as u32) {
        c.put(addr(n), facts("OTHER"));
    }
    // the hot generation is full: this write rotates it out to the cold one
    c.put(addr(0), facts("NEW"));
    assert_eq!(c.get(&addr(0)).unwrap().symbol.as_deref(), Some("NEW"));
    assert_eq!(c.get(&addr(1)).unwrap().symbol.as_deref(), Some("OTHER"));
}
