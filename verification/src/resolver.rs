//! The lookup entry point, and the trait of the types that consume templates.

use crate::mapping::{mapping_of, TemplateMap};
use crate::pair::text_view;
use crate::store::Templates;
use crate::time::{instant, Timestamp};
use vstd::prelude::*;

verus! {

/// A type that is rendered through one template: it names the template by
/// parent and name, and fills it in.
pub trait Template {
    /// The parent key of the template.
    fn parent() -> &'static str;

    /// The name key of the template.
    fn name() -> &'static str;

    /// The variant of this value that the template is applied for.
    fn variant(&self) -> &'static str;

    /// The template text `input`, filled in with this value.
    fn apply(&self, input: &str) -> Option<String>;
}

/// Resolves `(parent, name)` to a template text.
pub struct TemplateResolver;

impl TemplateResolver {
    /// Refreshes `store` with what its driver observed (see
    /// [`Templates::refresh`]) and returns a copy of the text held for `name`
    /// under `parent`, or `None` where the parent or the name is not there.
    pub fn load(
        store: &mut Templates,
        parent: &str,
        name: &str,
        modified: Option<Timestamp>,
        loaded: Option<TemplateMap>,
    ) -> (found: Option<String>)
        ensures
            final(store)@ == old(store)@.refresh(instant(modified), mapping_of(loaded)),
            final(store).path() == old(store).path(),
            text_view(found) == final(store)@.text(parent@, name@),
    {
        match store.refresh_and_get(parent, modified, loaded) {
            Some(pair) => match pair.get(name) {
                Some(text) => Some(text.clone()),
                None => None,
            },
            None => None,
        }
    }
}

} // verus!
