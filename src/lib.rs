//! A reactive capability registry for an assistant: pluggable providers
//! (language-model backends, slash commands) register into per-class
//! registries, and an active model selection is kept in step with the
//! settings, the registered providers and runtime feature flags.
pub mod registry;
pub mod selection;
pub mod settings;
pub mod commands;
pub mod assistant;
pub mod response;

pub use assistant::{init, Assistant, ModelRegistryEvent, Visibility, NAMESPACE};
pub use commands::SlashCommand;
pub use registry::{ProviderRegistry, Registration};
pub use response::{LanguageModelChoiceDelta, LanguageModelResponseMessage, LanguageModelUsage, Role};
pub use selection::{resolve, ActiveSelectionSet, ModelRef, Selection};
pub use settings::{AssistantSettings, SlashCommandSettings};
