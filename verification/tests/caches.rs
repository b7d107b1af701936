use kaleidux::program_cache::PipelineLRU;
use kaleidux::resource_pool::{ProgramLookup, ResourcePool, MAX_PIPELINE_CACHE_SIZE};
use kaleidux::texture_pool::{sweep_due, TexturePool};
use kaleidux::transition::Transition;

const SECOND: u64 = 1_000_000;

#[test]
fn lru_hit_and_miss() {
    let mut cache: PipelineLRU<u32> = PipelineLRU::new(2);
    assert_eq!(cache.len(), 0);
    assert_eq!(cache.get("fade"), None);
    cache.insert("fade".to_string(), 1);
    assert_eq!(cache.get("fade"), Some(1));
    assert!(cache.contains_key("fade"));
    assert!(!cache.contains_key("Fade"));
    assert_eq!(cache.len(), 1);
}

#[test]
fn lru_evicts_the_least_recently_used() {
    let mut cache: PipelineLRU<u32> = PipelineLRU::new(2);
    cache.insert("a".to_string(), 1);
    cache.insert("b".to_string(), 2);
    // Using "a" makes "b" the oldest.
    assert_eq!(cache.get("a"), Some(1));
    cache.insert("c".to_string(), 3);
    assert_eq!(cache.len(), 2);
    assert!(cache.contains_key("a"));
    assert!(!cache.contains_key("b"));
    assert!(cache.contains_key("c"));
    // contains_key does not count as use.
    assert!(cache.contains_key("a"));
    cache.insert("d".to_string(), 4);
    assert!(!cache.contains_key("a"));
    assert!(cache.contains_key("c"));
    assert!(cache.contains_key("d"));
}

#[test]
fn lru_replaces_without_evicting() {
    let mut cache: PipelineLRU<u32> = PipelineLRU::new(2);
    cache.insert("a".to_string(), 1);
    cache.insert("b".to_string(), 2);
    cache.insert("a".to_string(), 10);
    assert_eq!(cache.len(), 2);
    assert_eq!(cache.get("a"), Some(10));
    assert_eq!(cache.get("b"), Some(2));
    // "a" was used before "b": it leaves first.
    cache.insert("c".to_string(), 3);
    assert!(!cache.contains_key("a"));
    assert!(cache.contains_key("b"));
}

#[test]
fn lru_of_capacity_zero_keeps_the_last_insert() {
    let mut cache: PipelineLRU<u32> = PipelineLRU::new(0);
    cache.insert("a".to_string(), 1);
    assert_eq!(cache.len(), 1);
    cache.insert("b".to_string(), 2);
    assert_eq!(cache.len(), 1);
    assert!(!cache.contains_key("a"));
    assert_eq!(cache.get("b"), Some(2));
}

#[test]
fn lru_of_capacity_one() {
    let mut cache: PipelineLRU<u32> = PipelineLRU::new(1);
    cache.insert("a".to_string(), 1);
    cache.insert("b".to_string(), 2);
    assert_eq!(cache.len(), 1);
    assert_eq!(cache.get("a"), None);
    assert_eq!(cache.get("b"), Some(2));
}

#[test]
fn released_texture_is_the_one_acquired_again() {
    let mut pool: TexturePool<u32> = TexturePool::new();
    assert_eq!(pool.get_texture_from_pool(640, 480, 0), None);
    assert_eq!((pool.hits(), pool.misses()), (0, 1));
    assert_eq!(pool.return_texture_to_pool(7, 640, 480, 10 * SECOND), None);
    assert_eq!(pool.get_texture_from_pool(640, 480, 14 * SECOND + 999_999), Some(7));
    assert_eq!((pool.hits(), pool.misses()), (1, 1));
    // Handed out means gone from the pool.
    assert_eq!(pool.get_texture_from_pool(640, 480, 14 * SECOND + 999_999), None);
    assert_eq!((pool.hits(), pool.misses()), (1, 2));
}

#[test]
fn texture_expires_after_five_seconds() {
    let mut pool: TexturePool<u32> = TexturePool::new();
    pool.return_texture_to_pool(7, 640, 480, 10 * SECOND);
    assert_eq!(pool.get_texture_from_pool(640, 480, 15 * SECOND), None);
    assert_eq!((pool.hits(), pool.misses()), (0, 1));
    // The expired texture was dropped by the request.
    assert_eq!(pool.get_texture_from_pool(640, 480, 10 * SECOND), None);
}

#[test]
fn textures_of_another_size_are_not_handed_out() {
    let mut pool: TexturePool<u32> = TexturePool::new();
    pool.return_texture_to_pool(7, 640, 480, 0);
    assert_eq!(pool.get_texture_from_pool(480, 640, 1), None);
    assert_eq!(pool.get_texture_from_pool(640, 481, 1), None);
    assert_eq!(pool.get_texture_from_pool(640, 480, 1), Some(7));
}

#[test]
fn bucket_holds_three_and_hands_out_the_latest_first() {
    let mut pool: TexturePool<u32> = TexturePool::new();
    assert_eq!(pool.return_texture_to_pool(1, 64, 64, 0), None);
    assert_eq!(pool.return_texture_to_pool(2, 64, 64, 1), None);
    assert_eq!(pool.return_texture_to_pool(3, 64, 64, 2), None);
    assert_eq!(pool.return_texture_to_pool(4, 64, 64, 3), Some(4));
    assert_eq!(pool.return_texture_to_pool(5, 32, 32, 3), None);
    assert_eq!(pool.get_texture_from_pool(64, 64, 4), Some(3));
    assert_eq!(pool.get_texture_from_pool(64, 64, 4), Some(2));
    assert_eq!(pool.get_texture_from_pool(64, 64, 4), Some(1));
    assert_eq!(pool.get_texture_from_pool(64, 64, 4), None);
    assert_eq!(pool.get_texture_from_pool(32, 32, 4), Some(5));
}

#[test]
fn acquire_drops_only_what_is_stale() {
    let mut pool: TexturePool<u32> = TexturePool::new();
    pool.return_texture_to_pool(1, 64, 64, 0);
    pool.return_texture_to_pool(2, 64, 64, 3 * SECOND);
    // At 6 s the first is 6 s old, the second 3 s.
    assert_eq!(pool.get_texture_from_pool(64, 64, 6 * SECOND), Some(2));
    assert_eq!(pool.get_texture_from_pool(64, 64, 6 * SECOND), None);
}

#[test]
fn sweep_drops_what_a_request_would_refuse() {
    let mut pool: TexturePool<u32> = TexturePool::new();
    pool.return_texture_to_pool(1, 64, 64, 0);
    pool.return_texture_to_pool(2, 64, 64, 3 * SECOND);
    pool.return_texture_to_pool(3, 32, 32, 0);
    pool.cleanup_texture_pool(5 * SECOND);
    // Texture 2 survived the sweep and is still fresh for a request at 7 s.
    assert_eq!(pool.get_texture_from_pool(64, 64, 7 * SECOND), Some(2));
    assert_eq!(pool.get_texture_from_pool(64, 64, 7 * SECOND), None);
    // Textures 1 and 3 were expired at the sweep: a request at their time of release finds none.
    assert_eq!(pool.get_texture_from_pool(32, 32, 0), None);
    assert_eq!(pool.get_texture_from_pool(64, 64, 0), None);
    // Counters do not move on a sweep.
    assert_eq!((pool.hits(), pool.misses()), (1, 3));
}

#[test]
fn sweep_keeps_what_is_not_expired() {
    let mut pool: TexturePool<u32> = TexturePool::new();
    pool.return_texture_to_pool(1, 64, 64, 1);
    pool.cleanup_texture_pool(5 * SECOND);
    assert_eq!(pool.get_texture_from_pool(64, 64, 2), Some(1));
    // One microsecond later it would have been dropped.
    pool.return_texture_to_pool(2, 64, 64, 1);
    pool.cleanup_texture_pool(5 * SECOND + 1);
    assert_eq!(pool.get_texture_from_pool(64, 64, 2), None);
}

#[test]
fn a_texture_released_seven_seconds_ago_is_expired_everywhere() {
    let mut swept: TexturePool<u32> = TexturePool::new();
    swept.return_texture_to_pool(1, 64, 64, 0);
    swept.cleanup_texture_pool(7 * SECOND);
    assert_eq!(swept.get_texture_from_pool(64, 64, 0), None);
    let mut asked: TexturePool<u32> = TexturePool::new();
    asked.return_texture_to_pool(1, 64, 64, 0);
    assert_eq!(asked.get_texture_from_pool(64, 64, 7 * SECOND), None);
}

#[test]
fn sweep_cadence_is_five_seconds() {
    assert!(!sweep_due(0, 4_999_999));
    assert!(sweep_due(0, 5_000_000));
    assert!(!sweep_due(10, 5));
    let mut shared: ResourcePool<u32, u32> = ResourcePool::new(100);
    shared.release_texture(1, 8, 8, 100);
    assert!(!shared.sweep(100 + 4 * SECOND));
    assert_eq!(shared.last_sweep, 100);
    assert!(shared.sweep(100 + 11 * SECOND));
    assert_eq!(shared.last_sweep, 100 + 11 * SECOND);
    assert_eq!(shared.acquire_texture(8, 8, 100), None);
}

#[test]
fn shared_pool_round_trip_counts_a_hit() {
    let mut shared: ResourcePool<u32, u32> = ResourcePool::new(0);
    assert_eq!(shared.transition_pipelines.len(), 0);
    assert_eq!(MAX_PIPELINE_CACHE_SIZE, 50);
    assert_eq!(shared.acquire_texture(1920, 1080, 0), None);
    assert_eq!(shared.release_texture(5, 1920, 1080, 1), None);
    assert_eq!(shared.acquire_texture(1920, 1080, 2), Some(5));
    assert_eq!(shared.texture_pool.hits(), 1);
    assert_eq!(shared.texture_pool.misses(), 1);
}

#[test]
fn program_cache_holds_fifty() {
    let mut shared: ResourcePool<u32, u32> = ResourcePool::new(0);
    for i in 0..51u32 {
        shared.store_program(format!("effect-{}", i), i, false);
    }
    assert_eq!(shared.transition_pipelines.len(), 50);
    assert_eq!(shared.get_program("effect-0"), None);
    assert_eq!(shared.get_program("effect-1"), Some(1));
    assert_eq!(shared.get_program("effect-50"), Some(50));
    assert_eq!(shared.compile_failures, 0);
}

#[test]
fn program_is_looked_up_under_the_name_of_the_effect() {
    let mut shared: ResourcePool<u32, u32> = ResourcePool::new(0);
    match shared.get_transition_pipeline(&Transition::CrossZoom) {
        ProgramLookup::Missing { name } => {
            assert_eq!(name, "CrossZoom");
            shared.store_program(name, 9, false);
        }
        ProgramLookup::Cached { .. } => panic!("empty cache had a program"),
    }
    assert!(matches!(
        shared.get_transition_pipeline(&Transition::CrossZoom),
        ProgramLookup::Cached { program: 9 }
    ));
    assert!(matches!(
        shared.get_transition_pipeline(&Transition::Custom { shader: "CrossZoom".to_string() }),
        ProgramLookup::Cached { program: 9 }
    ));
}
