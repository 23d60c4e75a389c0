//! The slash-command class: a fixed baseline, a command behind a feature
//! flag that is registered once, and commands that the settings switch on
//! and off.
use vstd::prelude::*;
use vstd::string::*;
use crate::registry::{
    has_id, lemma_with_registration, lemma_without_id, unique_ids, with_registration, without_id,
    ProviderRegistry, RegistrationView,
};
use crate::settings::SlashCommandSettings;

verus! {

/// The slash commands that the assistant knows how to register. Their
/// implementations live elsewhere; the registry holds this tag for each.
#[derive(Clone, Copy, PartialEq, Eq, Structural, Debug)]
pub enum SlashCommand {
    File,
    Delta,
    Outline,
    Tab,
    CargoWorkspace,
    Prompt,
    Selection,
    Default,
    Terminal,
    Now,
    Diagnostics,
    Fetch,
    Docs,
    StreamingExample,
}

/// The identifier under which a command is registered.
pub open spec fn command_name(c: SlashCommand) -> Seq<char> {
    match c {
        SlashCommand::File => "file"@,
        SlashCommand::Delta => "delta"@,
        SlashCommand::Outline => "outline"@,
        SlashCommand::Tab => "tab"@,
        SlashCommand::CargoWorkspace => "cargo-workspace"@,
        SlashCommand::Prompt => "prompt"@,
        SlashCommand::Selection => "selection"@,
        SlashCommand::Default => "default"@,
        SlashCommand::Terminal => "terminal"@,
        SlashCommand::Now => "now"@,
        SlashCommand::Diagnostics => "diagnostics"@,
        SlashCommand::Fetch => "fetch"@,
        SlashCommand::Docs => "docs"@,
        SlashCommand::StreamingExample => "streaming-example"@,
    }
}

impl SlashCommand {
    /// The identifier under which this command is registered.
    pub fn name(&self) -> (r: String)
        ensures
            r@ == command_name(*self),
    {
        match self {
            SlashCommand::File => String::from_str("file"),
            SlashCommand::Delta => String::from_str("delta"),
            SlashCommand::Outline => String::from_str("outline"),
            SlashCommand::Tab => String::from_str("tab"),
            SlashCommand::CargoWorkspace => String::from_str("cargo-workspace"),
            SlashCommand::Prompt => String::from_str("prompt"),
            SlashCommand::Selection => String::from_str("selection"),
            SlashCommand::Default => String::from_str("default"),
            SlashCommand::Terminal => String::from_str("terminal"),
            SlashCommand::Now => String::from_str("now"),
            SlashCommand::Diagnostics => String::from_str("diagnostics"),
            SlashCommand::Fetch => String::from_str("fetch"),
            SlashCommand::Docs => String::from_str("docs"),
            SlashCommand::StreamingExample => String::from_str("streaming-example"),
        }
    }
}

/// The entry that registering `c` with default `enabled_by_default` makes.
pub open spec fn entry_of(c: SlashCommand, enabled_by_default: bool) -> RegistrationView<
    SlashCommand,
> {
    RegistrationView { id: command_name(c), provider: c, enabled_by_default }
}

/// Registers `c` under its name, replacing an earlier entry under it.
pub fn register_command(
    registry: &mut ProviderRegistry<SlashCommand>,
    c: SlashCommand,
    enabled_by_default: bool,
)
    requires
        old(registry).wf(),
    ensures
        final(registry).wf(),
        final(registry)@ == with_registration(old(registry)@, entry_of(c, enabled_by_default)),
{
    registry.register(c.name(), c, enabled_by_default);
}

/// Removes the entry under `c`'s name, if there is one.
pub fn unregister_command(registry: &mut ProviderRegistry<SlashCommand>, c: SlashCommand)
    requires
        old(registry).wf(),
    ensures
        final(registry).wf(),
        final(registry)@ == without_id(old(registry)@, command_name(c)),
{
    let name = c.name();
    registry.unregister(&name);
}

/// The commands registered at startup, each with its default.
pub open spec fn baseline_commands() -> Seq<(SlashCommand, bool)> {
    seq![
        (SlashCommand::File, true),
        (SlashCommand::Delta, true),
        (SlashCommand::Outline, true),
        (SlashCommand::Tab, true),
        (SlashCommand::CargoWorkspace, true),
        (SlashCommand::Prompt, true),
        (SlashCommand::Selection, true),
        (SlashCommand::Default, false),
        (SlashCommand::Terminal, true),
        (SlashCommand::Now, false),
        (SlashCommand::Diagnostics, true),
        (SlashCommand::Fetch, true),
    ]
}

/// The baseline as a vector.
fn baseline() -> (r: Vec<(SlashCommand, bool)>)
    ensures
        r@ == baseline_commands(),
{
    let mut r: Vec<(SlashCommand, bool)> = Vec::new();
    r.push((SlashCommand::File, true));
    r.push((SlashCommand::Delta, true));
    r.push((SlashCommand::Outline, true));
    r.push((SlashCommand::Tab, true));
    r.push((SlashCommand::CargoWorkspace, true));
    r.push((SlashCommand::Prompt, true));
    r.push((SlashCommand::Selection, true));
    r.push((SlashCommand::Default, false));
    r.push((SlashCommand::Terminal, true));
    r.push((SlashCommand::Now, false));
    r.push((SlashCommand::Diagnostics, true));
    r.push((SlashCommand::Fetch, true));
    assert(r@ =~= baseline_commands());
    r
}

/// The entries after registering each of `cmds` in order.
pub open spec fn register_all(
    s: Seq<RegistrationView<SlashCommand>>,
    cmds: Seq<(SlashCommand, bool)>,
) -> Seq<RegistrationView<SlashCommand>>
    decreases cmds.len(),
{
    if cmds.len() == 0 {
        s
    } else {
        with_registration(
            register_all(s, cmds.drop_last()),
            entry_of(cmds.last().0, cmds.last().1),
        )
    }
}

/// The entries after a settings flag for `c` is applied: registered with
/// default `true` where it is on, unregistered where it is off.
pub open spec fn toggled(
    s: Seq<RegistrationView<SlashCommand>>,
    c: SlashCommand,
    on: bool,
) -> Seq<RegistrationView<SlashCommand>> {
    if on {
        with_registration(s, entry_of(c, true))
    } else {
        without_id(s, command_name(c))
    }
}

/// The entries after the settings-controlled commands follow `settings`.
pub open spec fn synced(
    s: Seq<RegistrationView<SlashCommand>>,
    settings: SlashCommandSettings,
) -> Seq<RegistrationView<SlashCommand>> {
    toggled(
        toggled(s, SlashCommand::Docs, settings.docs),
        SlashCommand::CargoWorkspace,
        settings.cargo_workspace,
    )
}

/// The entries after the streaming-example flag reports `is_enabled`: the
/// command is registered when the flag turns on, and left alone when it
/// turns off.
pub open spec fn after_streaming_flag(
    s: Seq<RegistrationView<SlashCommand>>,
    is_enabled: bool,
) -> Seq<RegistrationView<SlashCommand>> {
    if is_enabled {
        with_registration(s, entry_of(SlashCommand::StreamingExample, false))
    } else {
        s
    }
}

/// Registers or unregisters `c` as its settings flag says.
fn apply_toggle(registry: &mut ProviderRegistry<SlashCommand>, c: SlashCommand, on: bool)
    requires
        old(registry).wf(),
    ensures
        final(registry).wf(),
        final(registry)@ == toggled(old(registry)@, c, on),
{
    if on {
        register_command(registry, c, true);
    } else {
        unregister_command(registry, c);
    }
}

/// Brings the settings-controlled commands in line with `settings`; run on
/// every settings change, so a command can be switched on and off again.
pub fn update_slash_commands_from_settings(
    registry: &mut ProviderRegistry<SlashCommand>,
    settings: &SlashCommandSettings,
)
    requires
        old(registry).wf(),
    ensures
        final(registry).wf(),
        final(registry)@ == synced(old(registry)@, *settings),
{
    apply_toggle(registry, SlashCommand::Docs, settings.docs);
    apply_toggle(registry, SlashCommand::CargoWorkspace, settings.cargo_workspace);
}

/// Registers the baseline commands, then the settings-controlled ones as
/// `settings` says.
pub fn register_slash_commands(
    registry: &mut ProviderRegistry<SlashCommand>,
    settings: &SlashCommandSettings,
)
    requires
        old(registry).wf(),
    ensures
        final(registry).wf(),
        final(registry)@ == synced(register_all(old(registry)@, baseline_commands()), *settings),
{
    let cmds = baseline();
    let mut i: usize = 0;
    while i < cmds.len()
        invariant
            i <= cmds@.len(),
            cmds@ == baseline_commands(),
            registry.wf(),
            registry@ == register_all(old(registry)@, cmds@.subrange(0, i as int)),
        decreases cmds@.len() - i,
    {
        let (c, d) = cmds[i];
        register_command(registry, c, d);
        proof {
            assert(cmds@.subrange(0, i + 1).drop_last() =~= cmds@.subrange(0, i as int));
        }
        i = i + 1;
    }
    assert(cmds@.subrange(0, cmds@.len() as int) =~= cmds@);
    update_slash_commands_from_settings(registry, settings);
}

/// Handles a change of the streaming-example feature flag. The command is
/// registered once the flag is on; it is deliberately not removed when the
/// flag turns off again.
pub fn on_streaming_flag_changed(registry: &mut ProviderRegistry<SlashCommand>, is_enabled: bool)
    requires
        old(registry).wf(),
    ensures
        final(registry).wf(),
        final(registry)@ == after_streaming_flag(old(registry)@, is_enabled),
{
    if is_enabled {
        register_command(registry, SlashCommand::StreamingExample, false);
    }
}

/// Applying a settings flag for `c` decides `c`'s presence and keeps every
/// other identifier's.
pub proof fn lemma_toggled(s: Seq<RegistrationView<SlashCommand>>, c: SlashCommand, on: bool)
    requires
        unique_ids(s),
    ensures
        unique_ids(toggled(s, c, on)),
        has_id(toggled(s, c, on), command_name(c)) == on,
        forall|id: Seq<char>|
            id != command_name(c) ==> has_id(toggled(s, c, on), id) == has_id(s, id),
{
    if on {
        lemma_with_registration(s, entry_of(c, true));
    } else {
        lemma_without_id(s, command_name(c));
    }
}

/// Switching the settings-controlled commands off, on, and off again leaves
/// the same identifiers registered as switching them off once.
pub proof fn lemma_settings_toggle_reversible(
    s: Seq<RegistrationView<SlashCommand>>,
    off: SlashCommandSettings,
    on: SlashCommandSettings,
)
    requires
        unique_ids(s),
    ensures
        forall|id: Seq<char>|
            has_id(synced(synced(synced(s, off), on), off), id) == has_id(synced(s, off), id),
{
    let s1 = synced(s, off);
    let s2 = synced(s1, on);
    let s3 = synced(s2, off);
    let docs = command_name(SlashCommand::Docs);
    let cargo = command_name(SlashCommand::CargoWorkspace);
    lemma_toggled(s, SlashCommand::Docs, off.docs);
    lemma_toggled(toggled(s, SlashCommand::Docs, off.docs), SlashCommand::CargoWorkspace, off.cargo_workspace);
    lemma_toggled(s1, SlashCommand::Docs, on.docs);
    lemma_toggled(toggled(s1, SlashCommand::Docs, on.docs), SlashCommand::CargoWorkspace, on.cargo_workspace);
    lemma_toggled(s2, SlashCommand::Docs, off.docs);
    lemma_toggled(toggled(s2, SlashCommand::Docs, off.docs), SlashCommand::CargoWorkspace, off.cargo_workspace);
    assert forall|id: Seq<char>| has_id(s3, id) == has_id(s1, id) by {
        if id == cargo {
        } else if id == docs {
        } else {
        }
    }
}

/// The streaming-example command stays registered when its flag turns off
/// after having turned on.
pub proof fn lemma_streaming_flag_one_shot(s: Seq<RegistrationView<SlashCommand>>)
    requires
        unique_ids(s),
    ensures
        has_id(
            after_streaming_flag(after_streaming_flag(s, true), false),
            command_name(SlashCommand::StreamingExample),
        ),
{
    lemma_with_registration(s, entry_of(SlashCommand::StreamingExample, false));
}

} // verus!
