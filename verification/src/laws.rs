//! What holds of every store, proved from the model of refreshing.

use crate::mapping::{text_of, Mapping};
use crate::model::{Plan, StoreModel};
use crate::nesting::{scan, within_limits, MAX_KEY_DOTS, MAX_NESTING};
use crate::pair::{collect, Text};
use vstd::prelude::*;

verus! {

/// Collecting entries keeps, for each key, the last entry that has it: the
/// collected map holds `key` exactly where some entry has it, and holds for it
/// the value of the entry at `last` where no later entry has the key.
pub proof fn law_collect_keeps_last_entry<V>(entries: Seq<(Text, V)>, key: Text, last: int)
    ensures
        collect(entries).contains_key(key) <==> exists|i: int|
            0 <= i < entries.len() && (#[trigger] entries[i]).0 == key,
        0 <= last < entries.len() && entries[last].0 == key && (forall|j: int|
            last < j < entries.len() ==> (#[trigger] entries[j]).0 != key) ==> collect(
            entries,
        ).contains_key(key) && collect(entries)[key] == entries[last].1,
    decreases entries.len(),
{
    if entries.len() > 0 {
        let front = entries.drop_last();
        law_collect_keeps_last_entry(front, key, last);
        assert forall|i: int| 0 <= i < front.len() implies front[i] == entries[i] by {}
    }
}

/// The scan never counts past its limits: at every point of every text the
/// open brackets and braces are at most `MAX_NESTING`, and the dots of the
/// line at most `MAX_KEY_DOTS`.
pub proof fn law_scan_counts_stay_small(text: Seq<char>)
    ensures
        scan(text).depth <= MAX_NESTING,
        scan(text).dots <= MAX_KEY_DOTS,
    decreases text.len(),
{
    if text.len() > 0 {
        law_scan_counts_stay_small(text.drop_last());
    }
}

/// A limit that was passed stays passed: a text of which some beginning is
/// not within the limits is not within them either.
pub proof fn law_passed_limit_stays_passed(text: Seq<char>, len: int)
    requires
        0 <= len <= text.len(),
        !within_limits(text.take(len)),
    ensures
        !within_limits(text),
    decreases text.len(),
{
    if len < text.len() {
        assert(text.drop_last().take(len) == text.take(len));
        law_passed_limit_stays_passed(text.drop_last(), len);
    } else {
        assert(text.take(len) == text);
    }
}

/// A file that has not changed is not read again. After a refresh that found
/// the modification time `mtime` and was handed a decoded file, a second
/// refresh that finds `mtime` again plans no reload and leaves the store as it
/// is, whatever it is handed. This needs the store not to be left anchored and
/// empty: an anchored store that holds no parent reloads at every refresh.
pub proof fn law_unchanged_file_is_not_read_again(
    store: StoreModel,
    mtime: int,
    loaded: Mapping,
    again: Option<Mapping>,
)
    requires
        !(store.refresh(Some(mtime), Some(loaded)).anchor is Some && store.refresh(
            Some(mtime),
            Some(loaded),
        ).mapping.is_empty()),
    ensures
        store.refresh(Some(mtime), Some(loaded)).plan(Some(mtime)) != Plan::Reload,
        store.refresh(Some(mtime), Some(loaded)).refresh(Some(mtime), again) == store.refresh(
            Some(mtime),
            Some(loaded),
        ),
{
}

/// A file that was edited is observed. Where the file's modification time has
/// moved past the load anchor and the file decodes, the refresh installs the
/// decoded mapping and anchors it at the new modification time, so that every
/// lookup answers from the new contents.
pub proof fn law_newer_file_is_observed(
    store: StoreModel,
    mtime: int,
    loaded: Mapping,
    parent: Text,
    name: Text,
)
    requires
        store.anchor is Some,
        store.anchor->0 < mtime,
    ensures
        store.plan(Some(mtime)) == Plan::Reload,
        store.refresh(Some(mtime), Some(loaded)) == (StoreModel {
            anchor: Some(mtime),
            mapping: loaded,
        }),
        store.refresh(Some(mtime), Some(loaded)).text(parent, name) == text_of(
            loaded,
            parent,
            name,
        ),
{
}

/// A parent that the mapping lacks is not found, under any name.
pub proof fn law_absent_parent_is_not_found(store: StoreModel, parent: Text, name: Text)
    requires
        !store.mapping.contains_key(parent),
    ensures
        store.parent(parent) is None,
        store.text(parent, name) is None,
{
}

/// A name that its parent lacks is not found, though the parent is.
pub proof fn law_absent_name_is_not_found(store: StoreModel, parent: Text, name: Text)
    requires
        store.mapping.contains_key(parent),
        !store.mapping[parent].contains_key(name),
    ensures
        store.parent(parent) == Some(store.mapping[parent]),
        store.text(parent, name) is None,
{
}

/// A name that its parent holds is found with the text held for it.
pub proof fn law_present_name_is_found(store: StoreModel, parent: Text, name: Text)
    requires
        store.mapping.contains_key(parent),
        store.mapping[parent].contains_key(name),
    ensures
        store.text(parent, name) == Some(store.mapping[parent][name]),
{
}

/// A file that has gone away costs nothing. A refresh that cannot have the
/// modification time leaves the store as it is, whatever it is handed.
pub proof fn law_unreachable_file_keeps_data(store: StoreModel, loaded: Option<Mapping>)
    ensures
        store.plan(None) == Plan::Unreachable,
        store.refresh(None, loaded) == store,
{
}

/// A file that cannot be read or decoded costs nothing either: the refresh
/// leaves the store as it is, whatever modification time it found.
pub proof fn law_failed_load_keeps_data(store: StoreModel, modified: Option<int>)
    ensures
        store.refresh(modified, None) == store,
{
}

/// A store whose file was malformed when it was created holds nothing, and
/// the first refresh that can examine the file and gets a decoded mapping
/// installs it, whatever the modification time: the store need not be created
/// again.
pub proof fn law_malformed_file_is_retried(
    now: int,
    modified: Option<int>,
    mtime: int,
    corrected: Mapping,
)
    ensures
        StoreModel::created(now, modified, None) == StoreModel::fresh(now),
        StoreModel::created(now, modified, None).mapping.is_empty(),
        StoreModel::created(now, modified, None).plan(Some(mtime)) == Plan::Reload,
        StoreModel::created(now, modified, None).refresh(Some(mtime), Some(corrected)) == (
        StoreModel { anchor: Some(mtime), mapping: corrected }),
{
    assert(StoreModel::fresh(now).mapping.is_empty());
}

/// A refresh is all or nothing. The mapping after it is the mapping before it
/// or the mapping it was handed, never a mixture; the anchor moves with the
/// mapping and not without it.
pub proof fn law_refresh_is_all_or_nothing(
    store: StoreModel,
    modified: Option<int>,
    loaded: Option<Mapping>,
)
    ensures
        store.refresh(modified, loaded) == store || (loaded is Some && modified is Some
            && store.refresh(modified, loaded) == (StoreModel {
            anchor: modified,
            mapping: loaded->0,
        })),
{
}

/// The load anchor does not move back. A store that is anchored stays
/// anchored, and while it holds a parent its anchor never decreases. (A store
/// that holds none takes the modification time of whatever it loads, which may
/// lie before the time it was created at.)
pub proof fn law_anchor_moves_forward(
    store: StoreModel,
    modified: Option<int>,
    loaded: Option<Mapping>,
)
    requires
        store.anchor is Some,
    ensures
        store.refresh(modified, loaded).anchor is Some,
        !store.mapping.is_empty() ==> store.anchor->0 <= store.refresh(modified, loaded).anchor->0,
{
}

/// A store without a load anchor is inert: no refresh plans a reload, and
/// none changes the store.
pub proof fn law_unanchored_store_is_inert(
    store: StoreModel,
    modified: Option<int>,
    loaded: Option<Mapping>,
)
    requires
        store.anchor is None,
    ensures
        store.plan(modified) != Plan::Reload,
        store.refresh(modified, loaded) == store,
{
}

} // verus!
