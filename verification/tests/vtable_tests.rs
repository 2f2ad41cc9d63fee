use riri_mod_tools::memory::MemoryImage;
use riri_mod_tools::vtable::{
    generate_vtable_entries, get_vtable, get_vtable_with_offset, VtableEntries, VtableKey,
    VtableRTTICache,
};

const BASE: u64 = 0x100000;

/// A synthetic loaded image holding exactly one well-formed object-locator
/// and type-descriptor pair: the locator pointer sits in the first candidate
/// slot, the locator names a descriptor whose trailing bytes carry the fixed
/// mangled-name prefix and the decorated name.
fn one_locator_image() -> MemoryImage {
    let mut bytes = vec![0u8; 0x200];
    // Candidate slot 0 at offset 0x40 points at the locator.
    let locator_abs = BASE + 0x80;
    bytes[0x40..0x48].copy_from_slice(&locator_abs.to_le_bytes());
    // Locator: struct offset 4 at +4, descriptor offset 0xC0 at +12.
    bytes[0x84..0x88].copy_from_slice(&4u32.to_le_bytes());
    bytes[0x8c..0x90].copy_from_slice(&0xC0u32.to_le_bytes());
    // Descriptor at 0xC0: the four prefix bytes follow its sixteen-byte
    // header, and the name runs from the prefix's last byte to the zero.
    bytes[0xd0] = 0x2e; // .
    bytes[0xd1] = 0x3f; // ?
    bytes[0xd2] = 0x41; // A
    bytes[0xd3] = 0x56; // V
    let name_tail = b"Widget@@";
    bytes[0xd4..0xd4 + name_tail.len()].copy_from_slice(name_tail);
    // bytes[0xd4 + len] is already zero: the terminator.
    MemoryImage::new(BASE, bytes)
}

#[test]
fn extraction_finds_exactly_one_table() {
    let img = one_locator_image();
    let entries = generate_vtable_entries(&img, 0x40);
    assert_eq!(entries.len(), 1);
    // The name skips the prefix's first three bytes; the recorded address
    // is the slot after the locator pointer, relative to the image base.
    let key = VtableKey::new("VWidget@@".to_owned(), 4);
    assert_eq!(entries.get(&key), Some(0x48));
    // A different struct offset is a different table.
    let other = VtableKey::new("VWidget@@".to_owned(), 0);
    assert_eq!(entries.get(&other), None);
}

#[test]
fn extraction_ignores_malformed_candidates() {
    // Without the prefix bytes no table is recorded.
    let mut img = one_locator_image();
    img.bytes[0xd0] = 0;
    let entries = generate_vtable_entries(&img, 0x40);
    assert_eq!(entries.len(), 0);
}

#[test]
fn duplicate_keys_keep_the_last_address() {
    let mut entries = VtableEntries::new();
    let dup_a = entries.insert(VtableKey::new("VThing@@".to_owned(), 0), 0x100);
    assert!(!dup_a);
    let dup_b = entries.insert(VtableKey::new("VThing@@".to_owned(), 0), 0x200);
    assert!(dup_b);
    assert_eq!(entries.len(), 1);
    assert_eq!(entries.get(&VtableKey::new("VThing@@".to_owned(), 0)), Some(0x200));
}

#[test]
fn vtable_lookup_adds_the_base() {
    let img = one_locator_image();
    let entries = generate_vtable_entries(&img, 0x40);
    assert_eq!(
        get_vtable_with_offset(&entries, BASE, "VWidget@@", 4),
        Some(BASE + 0x48)
    );
    assert_eq!(get_vtable(&entries, BASE, "VWidget@@"), None);
}

#[test]
fn cache_stores_findings_per_digest() {
    let img = one_locator_image();
    let entries = generate_vtable_entries(&img, 0x40);
    let mut cache = VtableRTTICache::new_empty();
    cache.add(0xABCD, entries);
    assert!(cache.get(0xABCD).is_some());
    assert!(cache.get(0x1234).is_none());
}

#[test]
fn dispatch_table_cache_file_round_trip() {
    let img = one_locator_image();
    let entries = generate_vtable_entries(&img, 0x40);
    let cache = VtableRTTICache::new_from_entry(0xFEED, entries);
    let bytes = cache.to_bytes();
    let back = VtableRTTICache::from_bytes(&bytes).expect("the encoding must decode");
    assert_eq!(back.entries.len(), 1);
    assert_eq!(back.entries[0].0, 0xFEED);
    let inner = &back.entries[0].1;
    assert_eq!(inner.get(&VtableKey::new("VWidget@@".to_owned(), 4)), Some(0x48));
}

#[test]
fn corrupt_dispatch_table_cache_file_is_refused() {
    let cache = VtableRTTICache::new_from_entry(1, VtableEntries::new());
    let mut bytes = cache.to_bytes();
    bytes.truncate(bytes.len() - 1);
    assert!(VtableRTTICache::from_bytes(&bytes).is_none());
}
