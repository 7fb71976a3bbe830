use treemd_core::image_cache::ImageCache;
use treemd_core::kitty::{base64_encode, ImageIdCounter};

#[test]
fn test_create_cache() {
    let _cache = ImageCache::new();
}

#[test]
fn test_base64_encoding() {
    let data = b"Hello, World!";
    let encoded = base64_encode(data);
    assert_eq!(encoded, "SGVsbG8sIFdvcmxkIQ==");
}

#[test]
fn test_image_id_generation() {
    let mut counter = ImageIdCounter::new();
    let id1 = counter.next_image_id();
    let id2 = counter.next_image_id();
    assert!(id2 > id1);
}
