//! The settings snapshot that the registry reads; it is owned elsewhere and
//! re-read in full on every change.
use vstd::prelude::*;
use crate::selection::ModelRef;

verus! {

/// The assistant's recognised options.
pub struct AssistantSettings {
    /// Whether the assistant's commands are visible at all.
    pub enabled: bool,
    /// The model requested as primary.
    pub default_model: ModelRef,
    /// The model requested for the editor.
    pub editor_model: ModelRef,
    /// Further models, in order; duplicates are allowed.
    pub inline_alternatives: Vec<ModelRef>,
}

/// The flags of the slash commands that settings control.
pub struct SlashCommandSettings {
    /// Whether the docs command is registered.
    pub docs: bool,
    /// Whether the cargo-workspace command is registered.
    pub cargo_workspace: bool,
}

} // verus!
