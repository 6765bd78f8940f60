use native_bridge::error::{translate, BridgeError, RegistryError};
use native_bridge::registry::{HandleIdAllocator, HandleRegistry};

#[test]
fn inserted_ids_are_distinct() {
    let mut alloc = HandleIdAllocator::new();
    let mut reg: HandleRegistry<u32> = HandleRegistry::new();
    let mut ids: Vec<u64> = Vec::new();
    for i in 0..100u32 {
        ids.push(reg.insert(&mut alloc, i));
        if i % 3 == 0 {
            let last = *ids.last().unwrap();
            assert_eq!(reg.remove(last), Ok(()));
        }
    }
    for i in 0..ids.len() {
        for j in (i + 1)..ids.len() {
            assert_ne!(ids[i], ids[j]);
        }
    }
}

#[test]
fn first_id_is_one() {
    let mut alloc = HandleIdAllocator::new();
    let mut reg: HandleRegistry<&str> = HandleRegistry::new();
    assert_eq!(reg.insert(&mut alloc, "a"), 1);
    assert_eq!(reg.insert(&mut alloc, "b"), 2);
}

#[test]
fn lookup_after_remove_is_invalid() {
    let mut alloc = HandleIdAllocator::new();
    let mut reg: HandleRegistry<i64> = HandleRegistry::new();
    let h = reg.insert(&mut alloc, 5);
    assert!(reg.contains(h));
    assert_eq!(reg.remove(h), Ok(()));
    assert!(!reg.contains(h));
    assert_eq!(reg.with_mut(h, |v| (v, ())), Err(RegistryError::InvalidHandle));
    assert_eq!(reg.remove(h), Err(RegistryError::InvalidHandle));
    let h2 = reg.insert(&mut alloc, 6);
    assert_ne!(h, h2);
    assert_eq!(reg.with_mut(h, |v| (v, ())), Err(RegistryError::InvalidHandle));
}

#[test]
fn unknown_id_is_invalid() {
    let mut reg: HandleRegistry<i64> = HandleRegistry::new();
    assert_eq!(reg.with_mut(0, |v| (v, ())), Err(RegistryError::InvalidHandle));
    assert_eq!(reg.remove(99), Err(RegistryError::InvalidHandle));
}

#[test]
fn with_mut_keeps_the_new_value() {
    let mut alloc = HandleIdAllocator::new();
    let mut reg: HandleRegistry<i64> = HandleRegistry::new();
    let a = reg.insert(&mut alloc, 10);
    let b = reg.insert(&mut alloc, 20);
    assert_eq!(reg.with_mut(a, |v| (v + 1, v)), Ok(10));
    assert_eq!(reg.with_mut(a, |v| (v * 2, v)), Ok(11));
    assert_eq!(reg.with_mut(a, |v| (v, v)), Ok(22));
    assert_eq!(reg.with_mut(b, |v| (v, v)), Ok(20));
}

#[test]
fn fresh_allocator_counts_from_one() {
    let mut alloc = HandleIdAllocator::new();
    assert!(alloc.has_capacity());
    assert_eq!(alloc.allocate(), 1);
    assert_eq!(alloc.allocate(), 2);
}

#[test]
fn translate_each_registry_error() {
    assert_eq!(translate(RegistryError::InvalidHandle), BridgeError::InvalidHandle);
    assert_eq!(translate(RegistryError::LockUnavailable), BridgeError::LockUnavailable);
}

#[test]
fn registries_sharing_an_allocator_never_share_ids() {
    let mut alloc = HandleIdAllocator::new();
    let mut accounts: HandleRegistry<&str> = HandleRegistry::new();
    let mut stores: HandleRegistry<Vec<u8>> = HandleRegistry::new();
    let a = accounts.insert(&mut alloc, "account");
    let s = stores.insert(&mut alloc, Vec::new());
    assert_ne!(a, s);
    assert!(!accounts.contains(s));
    assert!(!stores.contains(a));
    assert_eq!(accounts.with_mut(s, |v| (v, ())), Err(RegistryError::InvalidHandle));
    assert_eq!(stores.remove(a), Err(RegistryError::InvalidHandle));
}
