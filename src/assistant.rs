//! The assistant's process-wide state: the enabled switch, the two provider
//! classes and the active selection, with one entry point per event that the
//! surrounding application delivers.
use vstd::prelude::*;
use crate::commands::{
    after_streaming_flag, baseline_commands, on_streaming_flag_changed, register_all,
    register_slash_commands, synced, update_slash_commands_from_settings, SlashCommand,
};
use crate::registry::{with_registration, without_id, ProviderRegistry, RegistrationView};
use crate::selection::{resolve, ActiveSelectionSet};
use crate::settings::{AssistantSettings, SlashCommandSettings};

verus! {

/// The command-palette namespace that the enabled switch shows and hides.
pub const NAMESPACE: &'static str = "assistant";

/// An announcement for the command palette about the assistant's namespace.
#[derive(Clone, Copy, PartialEq, Eq, Structural, Debug)]
pub enum Visibility {
    Shown,
    Hidden,
}

/// The enabled switch after a request for `requested` while it stands at
/// `current`, with the announcement made, if any. An unchanged value
/// announces nothing.
pub open spec fn enabled_step(current: bool, requested: bool) -> (bool, Option<Visibility>) {
    if current == requested {
        (current, None)
    } else if requested {
        (true, Some(Visibility::Shown))
    } else {
        (false, Some(Visibility::Hidden))
    }
}

/// Asking the enabled switch twice in a row for one value announces at most
/// once: the second request changes nothing and announces nothing.
pub proof fn lemma_set_enabled_idempotent(current: bool, requested: bool)
    ensures
        enabled_step(enabled_step(current, requested).0, requested)
            == (enabled_step(current, requested).0, None::<Visibility>),
        enabled_step(current, requested).0 == requested,
{
}

/// An event of the model-provider class.
#[derive(Debug)]
pub enum ModelRegistryEvent {
    /// A provider's readiness changed.
    ProviderStateChanged,
    /// A provider was registered under this identifier.
    AddedProvider(String),
    /// The provider under this identifier was removed.
    RemovedProvider(String),
    /// Anything else the class reports; it does not concern the selection.
    Other,
}

/// Whether `e` calls for a new resolution pass.
pub open spec fn triggers_resolution(e: ModelRegistryEvent) -> bool {
    !(e is Other)
}

/// The assistant's state. It owns its registries and its selection; readers
/// get shared references only.
pub struct Assistant<M> {
    enabled: bool,
    models: ProviderRegistry<M>,
    commands: ProviderRegistry<SlashCommand>,
    selection: ActiveSelectionSet,
}

impl<M> Assistant<M> {
    /// The enabled switch's value.
    pub closed spec fn enabled_spec(&self) -> bool {
        self.enabled
    }

    /// The model-provider class.
    pub closed spec fn models_spec(&self) -> ProviderRegistry<M> {
        self.models
    }

    /// The slash-command class.
    pub closed spec fn commands_spec(&self) -> ProviderRegistry<SlashCommand> {
        self.commands
    }

    /// The current selection set.
    pub closed spec fn selection_spec(&self) -> ActiveSelectionSet {
        self.selection
    }

    /// The state's invariant: both registries keep their identifiers unique.
    pub open spec fn wf(&self) -> bool {
        self.models_spec().wf() && self.commands_spec().wf()
    }

    /// Whether the assistant's commands are visible.
    pub fn enabled(&self) -> (r: bool)
        ensures
            r == self.enabled_spec(),
    {
        self.enabled
    }

    /// The model providers registered now.
    pub fn model_providers(&self) -> (r: &ProviderRegistry<M>)
        ensures
            *r == self.models_spec(),
    {
        &self.models
    }

    /// The slash commands registered now.
    pub fn slash_commands(&self) -> (r: &ProviderRegistry<SlashCommand>)
        ensures
            *r == self.commands_spec(),
    {
        &self.commands
    }

    /// The active selection set of the last resolution pass.
    pub fn active_selection(&self) -> (r: &ActiveSelectionSet)
        ensures
            *r == self.selection_spec(),
    {
        &self.selection
    }

    /// Sets the enabled switch. An unchanged value does nothing; a change announces the
    /// namespace shown or hidden. Registries and selection stay as they are.
    pub fn set_enabled(&mut self, enabled: bool) -> (r: Option<Visibility>)
        ensures
            (final(self).enabled_spec(), r) == enabled_step(old(self).enabled_spec(), enabled),
            final(self).models_spec() == old(self).models_spec(),
            final(self).commands_spec() == old(self).commands_spec(),
            final(self).selection_spec() == old(self).selection_spec(),
    {
        if self.enabled == enabled {
            return None;
        }
        self.enabled = enabled;
        if !enabled {
            return Some(Visibility::Hidden);
        }
        Some(Visibility::Shown)
    }
    /// Registers a model provider under `id`, replacing any earlier one. No
    /// resolution pass runs here: the class reports the addition as an event.
    pub fn register_model_provider(&mut self, id: String, provider: M, enabled_by_default: bool)
        requires
            old(self).wf(),
        ensures
            final(self).wf(),
            final(self).models_spec()@ == with_registration(
                old(self).models_spec()@,
                (RegistrationView { id: id@, provider, enabled_by_default }),
            ),
            final(self).enabled_spec() == old(self).enabled_spec(),
            final(self).commands_spec() == old(self).commands_spec(),
            final(self).selection_spec() == old(self).selection_spec(),
    {
        self.models.register(id, provider, enabled_by_default);
    }

    /// Removes the model provider under `id`, if there is one.
    pub fn unregister_model_provider(&mut self, id: &String)
        requires
            old(self).wf(),
        ensures
            final(self).wf(),
            final(self).models_spec()@ == without_id(old(self).models_spec()@, id@),
            final(self).enabled_spec() == old(self).enabled_spec(),
            final(self).commands_spec() == old(self).commands_spec(),
            final(self).selection_spec() == old(self).selection_spec(),
    {
        self.models.unregister(id);
    }

    /// Registers slash command `c`, replacing an earlier entry under its name.
    pub fn register_slash_command(&mut self, c: SlashCommand, enabled_by_default: bool)
        requires
            old(self).wf(),
        ensures
            final(self).wf(),
            final(self).commands_spec()@ == with_registration(
                old(self).commands_spec()@,
                crate::commands::entry_of(c, enabled_by_default),
            ),
            final(self).enabled_spec() == old(self).enabled_spec(),
            final(self).models_spec() == old(self).models_spec(),
            final(self).selection_spec() == old(self).selection_spec(),
    {
        crate::commands::register_command(&mut self.commands, c, enabled_by_default);
    }

    /// Removes slash command `c`, if it is registered.
    pub fn unregister_slash_command(&mut self, c: SlashCommand)
        requires
            old(self).wf(),
        ensures
            final(self).wf(),
            final(self).commands_spec()@ == without_id(
                old(self).commands_spec()@,
                crate::commands::command_name(c),
            ),
            final(self).enabled_spec() == old(self).enabled_spec(),
            final(self).models_spec() == old(self).models_spec(),
            final(self).selection_spec() == old(self).selection_spec(),
    {
        crate::commands::unregister_command(&mut self.commands, c);
    }

    /// One resolution pass: the selection set is replaced whole by the one
    /// that `settings` and the registered model providers give.
    pub fn update_active_language_model_from_settings(&mut self, settings: &AssistantSettings)
        ensures
            final(self).selection_spec().resolved_from(*settings, final(self).models_spec()@),
            final(self).enabled_spec() == old(self).enabled_spec(),
            final(self).models_spec() == old(self).models_spec(),
            final(self).commands_spec() == old(self).commands_spec(),
    {
        self.selection = resolve(settings, &self.models);
    }

    /// Handles an event of the model-provider class: an addition, a removal
    /// or a change of readiness runs a resolution pass, anything else does
    /// nothing. Returns whether a pass ran.
    pub fn on_model_registry_event(
        &mut self,
        event: &ModelRegistryEvent,
        settings: &AssistantSettings,
    ) -> (r: bool)
        ensures
            r == triggers_resolution(*event),
            r ==> final(self).selection_spec().resolved_from(*settings, final(self).models_spec()@),
            !r ==> final(self).selection_spec() == old(self).selection_spec(),
            final(self).enabled_spec() == old(self).enabled_spec(),
            final(self).models_spec() == old(self).models_spec(),
            final(self).commands_spec() == old(self).commands_spec(),
    {
        match event {
            ModelRegistryEvent::ProviderStateChanged
            | ModelRegistryEvent::AddedProvider(_)
            | ModelRegistryEvent::RemovedProvider(_) => {
                self.update_active_language_model_from_settings(settings);
                true
            },
            ModelRegistryEvent::Other => false,
        }
    }

    /// Handles a settings change: the enabled switch follows `settings.enabled`, a
    /// resolution pass runs, and the settings-controlled commands follow
    /// `command_settings`. Returns the switch's announcement, if any.
    pub fn on_settings_changed(
        &mut self,
        settings: &AssistantSettings,
        command_settings: &SlashCommandSettings,
    ) -> (r: Option<Visibility>)
        requires
            old(self).wf(),
        ensures
            final(self).wf(),
            (final(self).enabled_spec(), r) == enabled_step(old(self).enabled_spec(), settings.enabled),
            final(self).selection_spec().resolved_from(*settings, final(self).models_spec()@),
            final(self).models_spec() == old(self).models_spec(),
            final(self).commands_spec()@ == synced(old(self).commands_spec()@, *command_settings),
    {
        let r = self.set_enabled(settings.enabled);
        self.update_active_language_model_from_settings(settings);
        update_slash_commands_from_settings(&mut self.commands, command_settings);
        r
    }

    /// Handles a change of the streaming-example feature flag: the command is
    /// registered when the flag turns on and kept when it turns off.
    pub fn on_streaming_flag_changed(&mut self, is_enabled: bool)
        requires
            old(self).wf(),
        ensures
            final(self).wf(),
            final(self).commands_spec()@ == after_streaming_flag(
                old(self).commands_spec()@,
                is_enabled,
            ),
            final(self).enabled_spec() == old(self).enabled_spec(),
            final(self).models_spec() == old(self).models_spec(),
            final(self).selection_spec() == old(self).selection_spec(),
    {
        on_streaming_flag_changed(&mut self.commands, is_enabled);
    }
}

/// Builds the assistant's state over the model providers registered so far:
/// the baseline and settings-controlled commands are registered, a first
/// resolution pass runs, and the enabled switch, which starts disabled with the
/// namespace hidden, follows `settings.enabled`. Returns the state and the
/// announcements made, in order.
pub fn init<M>(
    models: ProviderRegistry<M>,
    settings: &AssistantSettings,
    command_settings: &SlashCommandSettings,
) -> (r: (Assistant<M>, Vec<Visibility>))
    requires
        models.wf(),
    ensures
        r.0.wf(),
        r.0.enabled_spec() == settings.enabled,
        r.0.models_spec() == models,
        r.0.commands_spec()@ == synced(
            register_all(Seq::<RegistrationView<SlashCommand>>::empty(), baseline_commands()),
            *command_settings,
        ),
        r.0.selection_spec().resolved_from(*settings, models@),
        r.1@ == (if settings.enabled {
            seq![Visibility::Hidden, Visibility::Shown]
        } else {
            seq![Visibility::Hidden]
        }),
{
    let mut commands: ProviderRegistry<SlashCommand> = ProviderRegistry::new();
    register_slash_commands(&mut commands, command_settings);
    let selection = resolve(settings, &models);
    let mut assistant = Assistant { enabled: false, models, commands, selection };
    let mut announced: Vec<Visibility> = Vec::new();
    announced.push(Visibility::Hidden);
    if let Some(v) = assistant.set_enabled(settings.enabled) {
        announced.push(v);
    }
    assert(announced@ =~= (if settings.enabled {
        seq![Visibility::Hidden, Visibility::Shown]
    } else {
        seq![Visibility::Hidden]
    }));
    (assistant, announced)
}

} // verus!
