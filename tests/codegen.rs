use hsa_runtime::codegen::{CacheKey, KernelCache, KernelId, RequestAction};

fn key(index: u64, target_hash: u64) -> CacheKey {
    CacheKey {
        kernel: KernelId {
            crate_name: "kernels".to_string(),
            disambiguator_hi: 7,
            disambiguator_lo: 9,
            index,
        },
        target_hash,
    }
}

#[test]
fn concurrent_requests_start_one_compilation() {
    let mut cache: KernelCache<Result<u32, String>> = KernelCache::new();
    let k = key(1, 42);
    let actions: Vec<RequestAction> = (0..4).map(|_| cache.request(&k)).collect();
    assert_eq!(
        actions,
        vec![RequestAction::Compile, RequestAction::Wait, RequestAction::Wait, RequestAction::Wait]
    );
    assert!(cache.outcome(&k).is_none());
    assert_eq!(cache.complete(&k, Ok(77)), Some(4));
    assert_eq!(cache.outcome(&k), Some(&Ok(77)));
    assert_eq!(cache.request(&k), RequestAction::Ready);
}

#[test]
fn failure_is_shared_too() {
    let mut cache: KernelCache<Result<u32, String>> = KernelCache::new();
    let k = key(2, 42);
    assert_eq!(cache.request(&k), RequestAction::Compile);
    assert_eq!(cache.request(&k), RequestAction::Wait);
    assert_eq!(cache.complete(&k, Err("link".to_string())), Some(2));
    assert_eq!(cache.outcome(&k), Some(&Err("link".to_string())));
}

#[test]
fn distinct_keys_compile_separately() {
    let mut cache: KernelCache<u32> = KernelCache::new();
    assert_eq!(cache.request(&key(1, 1)), RequestAction::Compile);
    assert_eq!(cache.request(&key(1, 2)), RequestAction::Compile);
    assert_eq!(cache.request(&key(2, 1)), RequestAction::Compile);
    let mut other_crate = key(1, 1);
    other_crate.kernel.crate_name = "other".to_string();
    assert_eq!(cache.request(&other_crate), RequestAction::Compile);
    assert_eq!(cache.request(&key(1, 1)), RequestAction::Wait);
}

#[test]
fn completing_twice_keeps_first_outcome() {
    let mut cache: KernelCache<u32> = KernelCache::new();
    let k = key(3, 3);
    assert_eq!(cache.complete(&k, 5), None);
    assert_eq!(cache.request(&k), RequestAction::Compile);
    assert_eq!(cache.complete(&k, 5), Some(1));
    assert_eq!(cache.complete(&k, 6), None);
    assert_eq!(cache.outcome(&k), Some(&5));
}

#[test]
fn dead_context_refuses_requests() {
    let mut cache: KernelCache<u32> = KernelCache::new();
    let k = key(4, 4);
    assert_eq!(cache.request(&k), RequestAction::Compile);
    assert!(!cache.is_dead());
    cache.mark_dead();
    assert!(cache.is_dead());
    assert_eq!(cache.request(&k), RequestAction::ContextDead);
    assert_eq!(cache.request(&key(5, 5)), RequestAction::ContextDead);
}

#[test]
fn key_copy_is_equal() {
    let k = key(6, 8);
    let c = k.duplicate();
    assert_eq!(c.kernel.crate_name, "kernels");
    assert_eq!(c.kernel.index, 6);
    assert_eq!(c.target_hash, 8);
}
