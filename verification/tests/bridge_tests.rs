use packet_pipeline::bridge::{get_class, get_constructor, HostMetadataCache};

#[test]
fn metadata_cache_starts_empty_and_holds_what_was_cached() {
    let mut cache = HostMetadataCache::new();
    assert_eq!(get_class(&cache), None);
    assert_eq!(get_constructor(&cache), None);

    cache.cache_methods(11, 42);
    assert_eq!(get_class(&cache), Some(11));
    assert_eq!(get_constructor(&cache), Some(42));
}
