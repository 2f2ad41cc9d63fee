use riri_mod_tools::identity::ExecutableData;

#[test]
fn first_observation_appends_an_entry() {
    let mut cache = ExecutableData::new();
    let content = vec![1u8, 2, 3, 4];
    let (h, changed) = cache.resolve_identity(&"C:/games/game.exe".to_owned(), 100, &content);
    assert!(changed);
    assert_eq!(cache.entries.len(), 1);
    assert_eq!(cache.entries[0].full_path, "C:/games/game.exe");
    assert_eq!(cache.entries[0].write_time.0, 100);
    assert_eq!(cache.entries[0].hash, h);
}

#[test]
fn identity_cache_hit_skips_content() {
    // Resolving twice with no modification in between: the second call is
    // answered from the cache, so its content argument is never read -
    // handing it an empty buffer still yields the first digest.
    let path = "C:/games/game.exe".to_owned();
    let content = vec![0xAAu8; 64];
    let mut cache = ExecutableData::new();
    let (h1, c1) = cache.resolve_identity(&path, 555, &content);
    assert!(c1);
    let empty: Vec<u8> = Vec::new();
    let (h2, c2) = cache.resolve_identity(&path, 555, &empty);
    assert_eq!(h1, h2);
    assert!(!c2);
    assert_eq!(cache.cached_hash(&path, 555), Some(h1));
}

#[test]
fn identity_cache_invalidation_on_new_write_time() {
    // A changed file: new content and a later write time. The next resolve
    // recomputes the digest and updates the stored entry.
    let path = "C:/games/game.exe".to_owned();
    let mut cache = ExecutableData::new();
    let (h1, _) = cache.resolve_identity(&path, 100, &vec![1u8, 2, 3]);
    let (h2, changed) = cache.resolve_identity(&path, 200, &vec![9u8, 9, 9, 9]);
    assert!(changed);
    assert_ne!(h1, h2);
    assert_eq!(cache.entries.len(), 1);
    assert_eq!(cache.cached_hash(&path, 200), Some(h2));
    assert_eq!(cache.cached_hash(&path, 100), None);
}

#[test]
fn distinct_paths_get_distinct_entries() {
    let mut cache = ExecutableData::new();
    let (ha, _) = cache.resolve_identity(&"a.exe".to_owned(), 1, &vec![1u8]);
    let (hb, _) = cache.resolve_identity(&"b.exe".to_owned(), 1, &vec![2u8]);
    assert_eq!(cache.entries.len(), 2);
    assert_eq!(cache.cached_hash(&"a.exe".to_owned(), 1), Some(ha));
    assert_eq!(cache.cached_hash(&"b.exe".to_owned(), 1), Some(hb));
    assert_ne!(ha, hb);
}

#[test]
fn digest_matches_known_value_for_empty_input() {
    // The digest of empty content is the hash function's published value
    // for the empty input.
    let mut cache = ExecutableData::new();
    let empty: Vec<u8> = Vec::new();
    let h = cache.add_entry("x.exe".to_owned(), 0, &empty);
    assert_eq!(h, 0x2d06_8005_38d3_94c2);
}

#[test]
fn identity_cache_file_round_trip() {
    // Serializing the cache and reading the bytes back yields an equal
    // cache.
    let mut cache = ExecutableData::new();
    cache.add_entry("C:/games/game.exe".to_owned(), 111, &vec![1u8, 2, 3]);
    cache.add_entry("D:/other.exe".to_owned(), 222, &vec![4u8, 5]);
    let bytes = cache.to_bytes();
    let back = ExecutableData::from_bytes(&bytes).expect("the encoding must decode");
    assert_eq!(back.entries.len(), cache.entries.len());
    for (a, b) in cache.entries.iter().zip(back.entries.iter()) {
        assert_eq!(a.full_path, b.full_path);
        assert_eq!(a.write_time.0, b.write_time.0);
        assert_eq!(a.hash, b.hash);
    }
}

#[test]
fn corrupt_identity_cache_file_is_refused() {
    // A truncated file fails to decode, which the owner answers by
    // regenerating the cache.
    let mut cache = ExecutableData::new();
    cache.add_entry("C:/games/game.exe".to_owned(), 111, &vec![1u8, 2, 3]);
    let mut bytes = cache.to_bytes();
    bytes.pop();
    assert!(ExecutableData::from_bytes(&bytes).is_none());
    // Trailing garbage is corruption too.
    let mut bytes2 = cache.to_bytes();
    bytes2.push(0);
    assert!(ExecutableData::from_bytes(&bytes2).is_none());
}
