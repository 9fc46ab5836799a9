use gpu_batch::keyed_cache::KeyedCache;
use gpu_batch::sampler::{Sampler, SamplerBuilder};

fn filtering_sampler() -> Sampler {
    SamplerBuilder::new().clamp().linear().mipmap_linear().build()
}

fn nearest_sampler() -> Sampler {
    SamplerBuilder::new().wrap().nearest().mipmap_nearest().build()
}

#[test]
fn cache_determinism_builds_at_most_once() {
    let mut cache: KeyedCache<Sampler, u64> = KeyedCache::new();
    let mut built = 0u32;
    let first = *cache.get_or_insert_with(filtering_sampler(), || {
        built += 1;
        7u64
    });
    assert_eq!(first, 7);
    assert_eq!(built, 1);
    // A structurally equal key returns the stored object without building.
    let second = *cache.get_or_insert_with(filtering_sampler(), || {
        built += 1;
        99u64
    });
    assert_eq!(second, 7);
    assert_eq!(built, 1);
    assert_eq!(cache.len(), 1);
}

#[test]
fn cache_distinct_keys_build_separately() {
    let mut cache: KeyedCache<Sampler, u64> = KeyedCache::new();
    let a = *cache.get_or_insert_with(filtering_sampler(), || 1u64);
    let b = *cache.get_or_insert_with(nearest_sampler(), || 2u64);
    assert_eq!(a, 1);
    assert_eq!(b, 2);
    assert_eq!(cache.len(), 2);
}

#[test]
fn untouched_entry_evicted_after_window() {
    let mut cache: KeyedCache<Sampler, u64> = KeyedCache::new();
    cache.get_or_insert_with(filtering_sampler(), || 1u64);
    // The default window is 60 generations: the entry survives 59 aging
    // steps untouched.
    for _ in 0..59 {
        cache.age();
        assert!(cache.contains(&filtering_sampler()));
    }
    // The 60th aging step evicts it.
    cache.age();
    assert!(!cache.contains(&filtering_sampler()));
    assert_eq!(cache.len(), 0);
}

#[test]
fn touched_entry_never_evicted() {
    let mut cache: KeyedCache<Sampler, u64> = KeyedCache::new();
    cache.get_or_insert_with(filtering_sampler(), || 1u64);
    // Touch the entry every generation for far more generations than the
    // eviction window spans: it must always survive.
    for _ in 0..200 {
        let v = *cache.get_or_insert_with(filtering_sampler(), || 999u64);
        assert_eq!(v, 1);
        cache.age();
        assert!(cache.contains(&filtering_sampler()));
    }
}

#[test]
fn custom_window_evicts_sooner() {
    let mut cache: KeyedCache<Sampler, u64> = KeyedCache::with_window(3);
    cache.get_or_insert_with(filtering_sampler(), || 1u64);
    cache.age();
    cache.age();
    assert!(cache.contains(&filtering_sampler()));
    cache.age();
    assert!(!cache.contains(&filtering_sampler()));
}
