use assistant::ProviderRegistry;

fn s(x: &str) -> String {
    x.to_string()
}

#[test]
fn register_then_list_yields_ids_in_order() {
    let mut r: ProviderRegistry<u32> = ProviderRegistry::new();
    r.register(s("openai"), 1, true);
    r.register(s("anthropic"), 2, false);
    assert_eq!(r.list(), vec![s("openai"), s("anthropic")]);
    assert_eq!(r.len(), 2);
    assert!(r.contains(&s("openai")));
    assert!(!r.contains(&s("ollama")));
}

#[test]
fn registering_twice_keeps_the_second() {
    let mut r: ProviderRegistry<u32> = ProviderRegistry::new();
    r.register(s("a"), 1, true);
    r.register(s("b"), 5, true);
    r.register(s("a"), 2, false);
    assert_eq!(r.len(), 2);
    assert_eq!(r.list(), vec![s("a"), s("b")]);
    let e = r.get(&s("a")).unwrap();
    assert_eq!(e.provider, 2);
    assert!(!e.enabled_by_default);
}

#[test]
fn unregister_then_list_never_yields_the_id() {
    let mut r: ProviderRegistry<u32> = ProviderRegistry::new();
    r.register(s("a"), 1, true);
    r.register(s("b"), 2, true);
    r.unregister(&s("a"));
    assert_eq!(r.list(), vec![s("b")]);
    r.unregister(&s("zzz"));
    assert_eq!(r.list(), vec![s("b")]);
    assert!(r.get(&s("a")).is_none());
}

#[test]
fn unregister_on_empty_registry_is_a_no_op() {
    let mut r: ProviderRegistry<u32> = ProviderRegistry::new();
    r.unregister(&s("a"));
    assert_eq!(r.len(), 0);
    assert!(r.list().is_empty());
}
