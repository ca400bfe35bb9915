use synesthesia::resource_pool::ResourcePool;

#[test]
fn load_and_get() {
    let mut pool: ResourcePool<Vec<u8>> = ResourcePool::new();
    assert!(pool.get("cube").is_none());
    assert_eq!(pool.load("cube", Ok(vec![1, 2])), Ok(()));
    assert_eq!(pool.get("cube"), Some(&vec![1, 2]));
    assert_eq!(pool.get_copy("cube"), Some(vec![1, 2]));
    assert!(pool.get_copy("sound").is_none());
}

#[test]
fn load_replaces_same_id() {
    let mut pool: ResourcePool<u32> = Default::default();
    pool.load("a", Ok(1)).unwrap();
    pool.load("b", Ok(2)).unwrap();
    pool.load("a", Ok(3)).unwrap();
    assert_eq!(pool.get("a"), Some(&3));
    assert_eq!(pool.get("b"), Some(&2));
}

#[test]
fn failed_load_leaves_pool() {
    let mut pool: ResourcePool<u32> = ResourcePool::new();
    pool.load("a", Ok(1)).unwrap();
    assert_eq!(pool.load("a", Err(String::from("no such file"))), Err(String::from("no such file")));
    assert_eq!(pool.get("a"), Some(&1));
    assert_eq!(pool.load("z", Err(String::from("bad"))), Err(String::from("bad")));
    assert!(pool.get("z").is_none());
}

#[test]
fn release_removes() {
    let mut pool: ResourcePool<u32> = ResourcePool::new();
    pool.load("a", Ok(1)).unwrap();
    pool.load("b", Ok(2)).unwrap();
    pool._release("a");
    assert!(pool.get("a").is_none());
    assert_eq!(pool.get("b"), Some(&2));
    pool._release("missing");
    assert_eq!(pool.get("b"), Some(&2));
}
