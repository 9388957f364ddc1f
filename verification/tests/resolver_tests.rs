use std::collections::hash_map::DefaultHasher;
use std::hash::{Hash, Hasher};
use std::sync::Arc;

use godot_core::guaranteed::GuaranteedSignalFutureResolver;

fn hash_value<T: Hash>(value: &T) -> u64 {
    let mut hasher = DefaultHasher::new();
    value.hash(&mut hasher);
    hasher.finish()
}

/// Test that the hash of a cloned future resolver is equal to its original version. With this equality in place, we can create new
/// Callables that are equal to their original version but have separate reference counting.
#[test]
fn guaranteed_future_resolver_cloned_hash() {
    let resolver_a = GuaranteedSignalFutureResolver::<u8>::new(Arc::default());
    let resolver_b = resolver_a.clone();

    let hash_a = hash_value(&resolver_a);
    let hash_b = hash_value(&resolver_b);

    assert_eq!(hash_a, hash_b);
}

#[test]
fn resolver_clone_is_same_handle() {
    let resolver_a = GuaranteedSignalFutureResolver::<u8>::new(Arc::new(3));
    let resolver_b = resolver_a.clone();
    assert!(resolver_a.ptr_eq(&resolver_b));
    assert!(Arc::ptr_eq(resolver_a.state(), resolver_b.state()));
    assert_eq!(**resolver_b.state(), 3);
}

#[test]
fn resolvers_on_different_states_differ() {
    let resolver_a = GuaranteedSignalFutureResolver::<u8>::new(Arc::new(3));
    let resolver_b = GuaranteedSignalFutureResolver::<u8>::new(Arc::new(3));
    assert!(!resolver_a.ptr_eq(&resolver_b));
    assert_ne!(hash_value(&resolver_a), hash_value(&resolver_b));
}
