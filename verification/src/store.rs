//! The template store: the cached mapping and the rule that refreshes it.

use crate::mapping::{mapping_of, TemplateMap};
use crate::model::{Plan, StoreModel};
use crate::pair::{names_of, Pair};
use crate::time::{instant, Timestamp};
use std::path::PathBuf;
use vstd::prelude::*;

verus! {

/// `std::path::PathBuf`, which the store carries without looking inside.
#[verifier::external_type_specification]
#[verifier::external_body]
pub struct ExPathBuf(std::path::PathBuf);

/// The cache of one template file.
///
/// The store never touches the file system. Its driver asks for the file's
/// modification time, learns from [`Templates::plan`] whether the file is to
/// be read, and hands both observations to [`Templates::refresh`].
pub struct Templates {
    start: Option<Timestamp>,
    template_file: PathBuf,
    templates: TemplateMap,
}

impl View for Templates {
    type V = StoreModel;

    closed spec fn view(&self) -> StoreModel {
        StoreModel { anchor: instant(self.start), mapping: self.templates@ }
    }
}

impl Templates {
    /// The path of the backing file.
    pub closed spec fn path(&self) -> PathBuf {
        self.template_file
    }

    /// A store for `template_file`, created at the time `now`, after its first
    /// refresh: `modified` and `loaded` are what that refresh observed.
    pub fn new(
        template_file: PathBuf,
        now: Timestamp,
        modified: Option<Timestamp>,
        loaded: Option<TemplateMap>,
    ) -> (store: Templates)
        ensures
            store@ == StoreModel::created(now@, instant(modified), mapping_of(loaded)),
            store.path() == template_file,
    {
        let mut store = Templates { start: Some(now), template_file, templates: TemplateMap::new() };
        store.refresh(modified, loaded);
        store
    }

    /// A store for `template_file` that holds `templates` and no load anchor,
    /// as a store decoded on its own does. No refresh changes such a store.
    pub fn unanchored(template_file: PathBuf, templates: TemplateMap) -> (store: Templates)
        ensures
            store@ == (StoreModel { anchor: None, mapping: templates@ }),
            store.path() == template_file,
    {
        Templates { start: None, template_file, templates }
    }

    /// What the first refresh of a new store will do: the plan of a store
    /// that was created just now, whenever that is.
    pub fn first_plan(modified: Option<Timestamp>) -> (plan: Plan)
        ensures
            forall|now: int| plan == (#[trigger] StoreModel::fresh(now)).plan(instant(modified)),
    {
        match modified {
            Some(_) => Plan::Reload,
            None => Plan::Unreachable,
        }
    }

    /// What a refresh that finds the modification time `modified` will do.
    pub fn plan(&self, modified: Option<Timestamp>) -> (plan: Plan)
        ensures
            plan == self@.plan(instant(modified)),
    {
        match (modified, self.start) {
            (None, _) => Plan::Unreachable,
            (Some(_), None) => Plan::Inconsistent,
            (Some(mtime), Some(start)) => if start.is_before(&mtime) || self.templates.is_empty() {
                Plan::Reload
            } else {
                Plan::Current
            },
        }
    }

    /// Brings the store up to date with what its driver observed: `modified`
    /// is the file's modification time (`None`: it could not be had), `loaded`
    /// the decoded file (`None`: it was not read, or could not be read or
    /// decoded). `loaded` is looked at only where the plan is to reload.
    pub fn refresh(&mut self, modified: Option<Timestamp>, loaded: Option<TemplateMap>)
        ensures
            final(self)@ == old(self)@.refresh(instant(modified), mapping_of(loaded)),
            final(self).path() == old(self).path(),
    {
        match self.plan(modified) {
            Plan::Reload => match loaded {
                Some(map) => {
                    self.start = modified;
                    self.templates = map;
                },
                None => {},
            },
            _ => {},
        }
    }

    /// Refreshes the store as [`Templates::refresh`] does, then looks up
    /// `parent` in what the store holds.
    pub fn refresh_and_get(
        &mut self,
        parent: &str,
        modified: Option<Timestamp>,
        loaded: Option<TemplateMap>,
    ) -> (found: Option<&Pair>)
        ensures
            final(self)@ == old(self)@.refresh(instant(modified), mapping_of(loaded)),
            final(self).path() == old(self).path(),
            names_of(found) == final(self)@.parent(parent@),
    {
        self.refresh(modified, loaded);
        self.templates.get(parent)
    }

    /// The templates of `parent` as the store holds them now, without a
    /// refresh.
    pub fn get(&self, parent: &str) -> (found: Option<&Pair>)
        ensures
            names_of(found) == self@.parent(parent@),
    {
        self.templates.get(parent)
    }

    /// The path of the backing file.
    pub fn template_file(&self) -> (path: &PathBuf)
        ensures
            *path == self.path(),
    {
        &self.template_file
    }

    /// The load anchor: the modification time that the held mapping was
    /// loaded under or, before the first load, the time of creation.
    pub fn last_load_time(&self) -> (anchor: Option<Timestamp>)
        ensures
            instant(anchor) == self@.anchor,
    {
        self.start
    }

    /// Whether the store holds no parent.
    pub fn is_empty(&self) -> (b: bool)
        ensures
            b == self@.mapping.is_empty(),
    {
        self.templates.is_empty()
    }
}

} // verus!
