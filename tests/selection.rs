use assistant::{
    init, resolve, AssistantSettings, ModelRef, ModelRegistryEvent, ProviderRegistry,
    SlashCommandSettings,
};

fn mref(p: &str, m: &str) -> ModelRef {
    ModelRef::new(p.to_string(), m.to_string())
}

fn settings(alternatives: Vec<ModelRef>) -> AssistantSettings {
    AssistantSettings {
        enabled: true,
        default_model: mref("ProviderA", "Model1"),
        editor_model: mref("ProviderB", "Model2"),
        inline_alternatives: alternatives,
    }
}

#[test]
fn absent_provider_is_inactive_until_it_registers() {
    let st = settings(vec![]);
    let cs = SlashCommandSettings { docs: false, cargo_workspace: false };
    let (mut a, _) = init::<u32>(ProviderRegistry::new(), &st, &cs);
    let p = a.active_selection().primary.as_ref().unwrap();
    assert_eq!(p.model.provider, "ProviderA");
    assert_eq!(p.model.model, "Model1");
    assert!(!p.active);

    a.register_model_provider("ProviderA".to_string(), 7, true);
    assert!(!a.active_selection().primary.as_ref().unwrap().active);
    let ran = a.on_model_registry_event(&ModelRegistryEvent::AddedProvider("ProviderA".to_string()), &st);
    assert!(ran);
    let p = a.active_selection().primary.as_ref().unwrap();
    assert_eq!(p.model.provider, "ProviderA");
    assert_eq!(p.model.model, "Model1");
    assert!(p.active);
    assert!(!a.active_selection().editor.as_ref().unwrap().active);
}

#[test]
fn duplicate_alternatives_are_kept_in_order() {
    let st = settings(vec![mref("P1", "M1"), mref("P1", "M1")]);
    let mut reg: ProviderRegistry<u32> = ProviderRegistry::new();
    reg.register("P1".to_string(), 1, true);
    let r = resolve(&st, &reg);
    assert_eq!(r.alternatives.len(), 2);
    for alt in &r.alternatives {
        assert_eq!(alt.model.provider, "P1");
        assert_eq!(alt.model.model, "M1");
        assert!(alt.active);
    }
}

#[test]
fn alternatives_keep_settings_order() {
    let st = settings(vec![mref("X", "x1"), mref("Y", "y1"), mref("X", "x2")]);
    let mut reg: ProviderRegistry<u32> = ProviderRegistry::new();
    reg.register("Y".to_string(), 1, true);
    let r = resolve(&st, &reg);
    let got: Vec<(String, String, bool)> = r
        .alternatives
        .iter()
        .map(|s| (s.model.provider.clone(), s.model.model.clone(), s.active))
        .collect();
    assert_eq!(
        got,
        vec![
            ("X".to_string(), "x1".to_string(), false),
            ("Y".to_string(), "y1".to_string(), true),
            ("X".to_string(), "x2".to_string(), false),
        ]
    );
}

#[test]
fn resolved_primary_and_editor_are_present_or_inactive() {
    let st = settings(vec![]);
    let mut reg: ProviderRegistry<u32> = ProviderRegistry::new();
    reg.register("ProviderB".to_string(), 3, true);
    let r = resolve(&st, &reg);
    let p = r.primary.as_ref().unwrap();
    let e = r.editor.as_ref().unwrap();
    assert!(!p.active);
    assert!(e.active);
    assert!(reg.contains(&e.model.provider));
    assert_eq!(e.model.model, "Model2");
}

#[test]
fn removing_a_provider_deactivates_its_selection() {
    let st = settings(vec![]);
    let cs = SlashCommandSettings { docs: false, cargo_workspace: false };
    let mut reg: ProviderRegistry<u32> = ProviderRegistry::new();
    reg.register("ProviderA".to_string(), 1, true);
    let (mut a, _) = init(reg, &st, &cs);
    assert!(a.active_selection().primary.as_ref().unwrap().active);
    a.unregister_model_provider(&"ProviderA".to_string());
    assert!(a.on_model_registry_event(&ModelRegistryEvent::RemovedProvider("ProviderA".to_string()), &st));
    assert!(!a.active_selection().primary.as_ref().unwrap().active);
}

#[test]
fn unrelated_event_runs_no_resolution() {
    let st = settings(vec![]);
    let cs = SlashCommandSettings { docs: false, cargo_workspace: false };
    let (mut a, _) = init::<u32>(ProviderRegistry::new(), &st, &cs);
    a.register_model_provider("ProviderA".to_string(), 1, true);
    assert!(!a.on_model_registry_event(&ModelRegistryEvent::Other, &st));
    assert!(!a.active_selection().primary.as_ref().unwrap().active);
    assert!(a.on_model_registry_event(&ModelRegistryEvent::ProviderStateChanged, &st));
    assert!(a.active_selection().primary.as_ref().unwrap().active);
}

#[test]
fn empty_selection_set_selects_nothing() {
    let e = assistant::ActiveSelectionSet::empty();
    assert!(e.primary.is_none());
    assert!(e.editor.is_none());
    assert!(e.alternatives.is_empty());
}
