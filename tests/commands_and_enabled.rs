use assistant::{
    init, AssistantSettings, ModelRef, ProviderRegistry, SlashCommand, SlashCommandSettings,
    Visibility, NAMESPACE,
};

fn settings(enabled: bool) -> AssistantSettings {
    AssistantSettings {
        enabled,
        default_model: ModelRef::new("p".to_string(), "m".to_string()),
        editor_model: ModelRef::new("p".to_string(), "m".to_string()),
        inline_alternatives: vec![],
    }
}

fn off() -> SlashCommandSettings {
    SlashCommandSettings { docs: false, cargo_workspace: false }
}

fn sorted(mut v: Vec<String>) -> Vec<String> {
    v.sort();
    v
}

#[test]
fn init_hides_then_follows_settings() {
    let (a, ann) = init::<u32>(ProviderRegistry::new(), &settings(true), &off());
    assert_eq!(ann, vec![Visibility::Hidden, Visibility::Shown]);
    assert!(a.enabled());
    let (b, ann) = init::<u32>(ProviderRegistry::new(), &settings(false), &off());
    assert_eq!(ann, vec![Visibility::Hidden]);
    assert!(!b.enabled());
    assert_eq!(NAMESPACE, "assistant");
}

#[test]
fn set_enabled_twice_announces_once() {
    let (mut a, _) = init::<u32>(ProviderRegistry::new(), &settings(false), &off());
    assert_eq!(a.set_enabled(true), Some(Visibility::Shown));
    assert_eq!(a.set_enabled(true), None);
    assert!(a.enabled());
    assert_eq!(a.set_enabled(false), Some(Visibility::Hidden));
    assert_eq!(a.set_enabled(false), None);
    assert!(!a.enabled());
}

#[test]
fn disabling_keeps_registries_and_selection() {
    let mut reg: ProviderRegistry<u32> = ProviderRegistry::new();
    reg.register("p".to_string(), 1, true);
    let (mut a, _) = init(reg, &settings(true), &off());
    let before = a.slash_commands().list();
    assert_eq!(a.set_enabled(false), Some(Visibility::Hidden));
    assert_eq!(a.slash_commands().list(), before);
    assert_eq!(a.model_providers().list(), vec!["p".to_string()]);
    assert!(a.active_selection().primary.as_ref().unwrap().active);
}

#[test]
fn baseline_commands_are_registered_with_their_defaults() {
    let (a, _) = init::<u32>(ProviderRegistry::new(), &settings(true), &off());
    let names = a.slash_commands().list();
    assert_eq!(
        names,
        vec![
            "file", "delta", "outline", "tab", "prompt", "selection", "default", "terminal",
            "now", "diagnostics", "fetch"
        ]
        .into_iter()
        .map(String::from)
        .collect::<Vec<String>>()
    );
    let d = a.slash_commands().get(&"default".to_string()).unwrap();
    assert_eq!(d.provider, SlashCommand::Default);
    assert!(!d.enabled_by_default);
    assert!(a.slash_commands().get(&"file".to_string()).unwrap().enabled_by_default);
    assert!(!a.slash_commands().get(&"now".to_string()).unwrap().enabled_by_default);
}

#[test]
fn settings_commands_follow_every_change() {
    let (mut a, _) = init::<u32>(ProviderRegistry::new(), &settings(true), &off());
    let before = sorted(a.slash_commands().list());
    let on = SlashCommandSettings { docs: true, cargo_workspace: true };
    assert_eq!(a.on_settings_changed(&settings(true), &on), None);
    assert!(a.slash_commands().contains(&"docs".to_string()));
    assert!(a.slash_commands().contains(&"cargo-workspace".to_string()));
    assert_eq!(a.on_settings_changed(&settings(true), &off()), None);
    assert!(!a.slash_commands().contains(&"docs".to_string()));
    assert!(!a.slash_commands().contains(&"cargo-workspace".to_string()));
    assert_eq!(sorted(a.slash_commands().list()), before);
}

#[test]
fn settings_change_moves_the_enabled_switch() {
    let (mut a, _) = init::<u32>(ProviderRegistry::new(), &settings(true), &off());
    assert_eq!(a.on_settings_changed(&settings(false), &off()), Some(Visibility::Hidden));
    assert_eq!(a.on_settings_changed(&settings(false), &off()), None);
    assert_eq!(a.on_settings_changed(&settings(true), &off()), Some(Visibility::Shown));
}

#[test]
fn streaming_command_stays_after_flag_turns_off() {
    let (mut a, _) = init::<u32>(ProviderRegistry::new(), &settings(true), &off());
    let name = "streaming-example".to_string();
    a.on_streaming_flag_changed(false);
    assert!(!a.slash_commands().contains(&name));
    a.on_streaming_flag_changed(true);
    assert!(a.slash_commands().contains(&name));
    let e = a.slash_commands().get(&name).unwrap();
    assert_eq!(e.provider, SlashCommand::StreamingExample);
    assert!(!e.enabled_by_default);
    a.on_streaming_flag_changed(false);
    assert!(a.slash_commands().contains(&name));
}

#[test]
fn command_names() {
    assert_eq!(SlashCommand::CargoWorkspace.name(), "cargo-workspace");
    assert_eq!(SlashCommand::Docs.name(), "docs");
    assert_eq!(SlashCommand::File.name(), "file");
}

#[test]
fn direct_command_registration_and_removal() {
    let (mut a, _) = init::<u32>(ProviderRegistry::new(), &settings(true), &off());
    a.register_slash_command(SlashCommand::Docs, false);
    assert!(!a.slash_commands().get(&"docs".to_string()).unwrap().enabled_by_default);
    a.unregister_slash_command(SlashCommand::File);
    assert!(!a.slash_commands().contains(&"file".to_string()));
    a.unregister_slash_command(SlashCommand::File);
    assert!(!a.slash_commands().contains(&"file".to_string()));
}
