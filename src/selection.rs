//! Model references and the resolver that turns the settings' requests into
//! the active selection set.
use vstd::prelude::*;
use crate::registry::{has_id, ProviderRegistry, RegistrationView};
use crate::settings::AssistantSettings;

verus! {

/// A (provider, model) pair: the unit of selection.
pub struct ModelRef {
    pub provider: String,
    pub model: String,
}

impl View for ModelRef {
    type V = (Seq<char>, Seq<char>);

    open spec fn view(&self) -> (Seq<char>, Seq<char>) {
        (self.provider@, self.model@)
    }
}

impl ModelRef {
    /// A reference to `model` of `provider`.
    pub fn new(provider: String, model: String) -> (r: Self)
        ensures
            r.provider == provider,
            r.model == model,
    {
        ModelRef { provider, model }
    }

    /// A copy of this reference.
    pub fn cloned(&self) -> (r: Self)
        ensures
            r@ == self@,
    {
        ModelRef { provider: self.provider.clone(), model: self.model.clone() }
    }
}

/// One resolved selection: the requested pair, and whether its provider is
/// registered now. An inactive selection is kept, not dropped: its provider
/// may register later.
pub struct Selection {
    pub model: ModelRef,
    pub active: bool,
}

/// Whether `sel` is what resolving the request `m` against the registry
/// entries `reg` gives.
pub open spec fn selects<M>(sel: Selection, m: ModelRef, reg: Seq<RegistrationView<M>>) -> bool {
    sel.model@ == m@ && sel.active == has_id(reg, m.provider@)
}

/// The active selections: the primary model, the editor model and the
/// inline alternatives, in the order the settings give them.
pub struct ActiveSelectionSet {
    pub primary: Option<Selection>,
    pub editor: Option<Selection>,
    pub alternatives: Vec<Selection>,
}

impl ActiveSelectionSet {
    /// The set before any resolution: nothing selected.
    pub fn empty() -> (r: Self)
        ensures
            r.primary.is_none(),
            r.editor.is_none(),
            r.alternatives@.len() == 0,
    {
        ActiveSelectionSet { primary: None, editor: None, alternatives: Vec::new() }
    }

    /// Whether every selection of the set is what resolving `settings`
    /// against `reg` gives.
    pub open spec fn resolved_from<M>(
        &self,
        settings: AssistantSettings,
        reg: Seq<RegistrationView<M>>,
    ) -> bool {
        &&& self.primary.is_some()
        &&& selects(self.primary.unwrap(), settings.default_model, reg)
        &&& self.editor.is_some()
        &&& selects(self.editor.unwrap(), settings.editor_model, reg)
        &&& self.alternatives@.len() == settings.inline_alternatives@.len()
        &&& forall|i: int|
            0 <= i < self.alternatives@.len() ==> selects(
                #[trigger] self.alternatives@[i],
                settings.inline_alternatives@[i],
                reg,
            )
    }
}

/// Resolves one requested pair against the registry.
fn resolve_one<M>(m: &ModelRef, models: &ProviderRegistry<M>) -> (r: Selection)
    ensures
        selects(r, *m, models@),
{
    let active = models.contains(&m.provider);
    Selection { model: m.cloned(), active }
}

/// Computes the active selection set from the settings and the model
/// providers registered now. Every request is kept, in order and with its
/// duplicates; one whose provider is absent is marked inactive.
pub fn resolve<M>(settings: &AssistantSettings, models: &ProviderRegistry<M>) -> (r:
    ActiveSelectionSet)
    ensures
        r.resolved_from(*settings, models@),
        r.primary.unwrap().active ==> has_id(models@, r.primary.unwrap().model.provider@),
        r.editor.unwrap().active ==> has_id(models@, r.editor.unwrap().model.provider@),
{
    let primary = resolve_one(&settings.default_model, models);
    let editor = resolve_one(&settings.editor_model, models);
    let mut alternatives: Vec<Selection> = Vec::new();
    let mut i: usize = 0;
    while i < settings.inline_alternatives.len()
        invariant
            i <= settings.inline_alternatives@.len(),
            alternatives@.len() == i,
            forall|j: int|
                0 <= j < i ==> selects(
                    #[trigger] alternatives@[j],
                    settings.inline_alternatives@[j],
                    models@,
                ),
        decreases settings.inline_alternatives@.len() - i,
    {
        let sel = resolve_one(&settings.inline_alternatives[i], models);
        alternatives.push(sel);
        i = i + 1;
    }
    ActiveSelectionSet { primary: Some(primary), editor: Some(editor), alternatives }
}

} // verus!
