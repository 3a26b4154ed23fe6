use mf_derive::loader::memory::MemoryLoader;

#[test]
fn new_loader_is_empty() {
    let loader: MemoryLoader<u32> = MemoryLoader::new();
    assert_eq!(loader.get("a"), None);
}

#[test]
fn get_returns_what_add_stored() {
    let mut loader = MemoryLoader::new();
    loader.add("a".to_string(), 1);
    loader.add("b".to_string(), 2);
    assert_eq!(loader.get("a"), Some(&1));
    assert_eq!(loader.get("b"), Some(&2));
    assert_eq!(loader.get("c"), None);
}

#[test]
fn add_replaces_an_existing_key() {
    let mut loader = MemoryLoader::new();
    loader.add("a".to_string(), 1);
    loader.add("a".to_string(), 5);
    assert_eq!(loader.get("a"), Some(&5));
}

#[test]
fn remove_reports_whether_the_key_was_there() {
    let mut loader = MemoryLoader::new();
    loader.add("a".to_string(), "x".to_string());
    loader.add("b".to_string(), "y".to_string());
    assert!(loader.remove("a"));
    assert!(!loader.remove("a"));
    assert_eq!(loader.get("a"), None);
    assert_eq!(loader.get("b"), Some(&"y".to_string()));
}
