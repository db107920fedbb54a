use fleet_gateway::key_chain::KeyChain;

#[test]
fn test_rotation() {
    let mut chain = KeyChain::new(vec!["key1".into(), "key2".into(), "key3".into()]);

    assert_eq!(chain.current_key().as_deref(), Some("key1"));
    chain.mark_current_bad();
    assert_eq!(chain.current_key().as_deref(), Some("key2"));
    chain.mark_current_bad();
    assert_eq!(chain.current_key().as_deref(), Some("key3"));
}

#[test]
fn test_all_bad_resets() {
    let mut chain = KeyChain::new(vec!["key1".into(), "key2".into()]);

    chain.mark_current_bad();
    chain.mark_current_bad();
    assert!(chain.current_key().is_some());
}

#[test]
fn test_empty_chain() {
    let chain = KeyChain::new(vec![]);
    assert!(chain.is_empty());
    assert!(chain.current_key().is_none());
}

#[test]
fn rotation_and_reset() {
    let mut kc = KeyChain::new(vec!["a".into(), "b".into(), "c".into()]);
    assert_eq!(kc.current_key().as_deref(), Some("a"));
    kc.mark_current_bad();
    assert_eq!(kc.current_key().as_deref(), Some("b"));
    kc.reset();
    assert_eq!(kc.current_key().as_deref(), Some("b"));
}

#[test]
fn all_bad_resets() {
    let mut kc = KeyChain::new(vec!["a".into(), "b".into()]);
    kc.mark_current_bad();
    kc.mark_current_bad();
    assert!(kc.current_key().is_some());
}

#[test]
fn empty_chain() {
    let kc = KeyChain::new(vec![]);
    assert!(kc.is_empty());
    assert!(kc.current_key().is_none());
}

#[test]
fn full_turn_is_back_at_the_first_key() {
    let mut kc = KeyChain::new(vec!["a".into(), "b".into(), "c".into()]);
    assert_eq!(kc.len(), 3);
    for expected in ["a", "b", "c", "a", "b", "c", "a"] {
        assert_eq!(kc.current_key().as_deref(), Some(expected));
        kc.mark_current_bad();
    }
}

#[test]
fn reset_in_the_middle_starts_a_new_turn() {
    let mut kc = KeyChain::new(vec!["a".into(), "b".into(), "c".into()]);
    kc.mark_current_bad();
    kc.reset();
    for expected in ["b", "c", "a", "b"] {
        assert_eq!(kc.current_key().as_deref(), Some(expected));
        kc.mark_current_bad();
    }
}

#[test]
fn single_key_is_always_in_use() {
    let mut kc = KeyChain::new(vec!["only".into()]);
    kc.mark_current_bad();
    assert_eq!(kc.current_key().as_deref(), Some("only"));
}

#[test]
fn refusal_without_keys_changes_nothing() {
    let mut kc = KeyChain::new(vec![]);
    kc.mark_current_bad();
    assert_eq!(kc.len(), 0);
    assert!(kc.current_key().is_none());
}
