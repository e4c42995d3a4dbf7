//! The store as a mathematical state, and refreshing as a function on it.

use crate::mapping::{parent_of, text_of, Mapping};
use crate::pair::Text;
use vstd::prelude::*;

verus! {

/// What a refresh does once the file's modification time has been asked for.
#[derive(Clone, Copy, Debug, PartialEq, Eq, Structural)]
pub enum Plan {
    /// The modification time could not be had: the store stays as it is.
    Unreachable,
    /// The store holds no load anchor: it stays as it is, now and for ever.
    Inconsistent,
    /// What the store holds is not older than the file: the file is not read.
    Current,
    /// The file is to be read and decoded.
    Reload,
}

/// The state of a store: the load anchor, which is the modification time
/// that the held mapping was loaded under, and the held mapping.
pub struct StoreModel {
    pub anchor: Option<int>,
    pub mapping: Mapping,
}

impl StoreModel {
    /// A store that has loaded nothing yet, anchored at the time `now`.
    pub open spec fn fresh(now: int) -> StoreModel {
        StoreModel { anchor: Some(now), mapping: Map::empty() }
    }

    /// The plan of a refresh that finds the modification time `modified`
    /// (`None`: the file could not be examined). A reload is due where the
    /// anchor is earlier than `modified`, and wherever the mapping is empty.
    pub open spec fn plan(self, modified: Option<int>) -> Plan {
        match (modified, self.anchor) {
            (None, _) => Plan::Unreachable,
            (Some(_), None) => Plan::Inconsistent,
            (Some(mtime), Some(anchor)) => if anchor < mtime || self.mapping.is_empty() {
                Plan::Reload
            } else {
                Plan::Current
            },
        }
    }

    /// The state after a refresh that finds the modification time `modified`
    /// and, where it reads the file, gets `loaded` out of it (`None`: the file
    /// could not be read or decoded). Only a reload that yields a mapping
    /// changes anything: it installs the mapping and anchors it at `modified`.
    pub open spec fn refresh(self, modified: Option<int>, loaded: Option<Mapping>) -> StoreModel {
        if self.plan(modified) == Plan::Reload && loaded is Some {
            StoreModel { anchor: modified, mapping: loaded->0 }
        } else {
            self
        }
    }

    /// A store created at the time `now`, after its first refresh.
    pub open spec fn created(now: int, modified: Option<int>, loaded: Option<Mapping>) -> StoreModel {
        StoreModel::fresh(now).refresh(modified, loaded)
    }

    /// The names and texts held for `parent`, if the parent is there.
    pub open spec fn parent(self, parent: Text) -> Option<Map<Text, Text>> {
        parent_of(self.mapping, parent)
    }

    /// The text held for `name` under `parent`, if both are there.
    pub open spec fn text(self, parent: Text, name: Text) -> Option<Text> {
        text_of(self.mapping, parent, name)
    }
}

} // verus!
