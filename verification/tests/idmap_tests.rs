use tinygl_compiler::idmap::IdMap;

#[test]
fn lookup_returns_the_most_recent_binding() {
    let mut m: IdMap<u32> = IdMap::new();
    assert!(!m.contains_key(1));
    assert_eq!(m.get(1), None);
    m.insert(1, 10);
    m.insert(2, 20);
    assert_eq!(m.get(1), Some(&10));
    assert_eq!(m.get(2), Some(&20));
    m.insert(1, 30);
    assert_eq!(m.get(1), Some(&30));
    assert!(m.contains_key(2));
    assert!(!m.contains_key(3));
}
