//! The two-level mapping: parents, and under each its named templates.

use crate::pair::{collect, Pair, Text};
use vstd::hash_map::StringHashMap;
use vstd::prelude::*;

verus! {

/// The mapping as contracts speak of it: parent, then name, then text.
pub type Mapping = Map<Text, Map<Text, Text>>;

/// One parent of a decoded document: its key and its `(name, text)` entries.
pub type Table = (Text, Seq<(Text, Text)>);

/// The parent key of a table, with the map that its entries describe.
pub open spec fn table_entry(table: Table) -> (Text, Map<Text, Text>) {
    (table.0, collect(table.1))
}

/// The mapping that a list of tables describes, entered in order.
pub open spec fn collect_tables(tables: Seq<Table>) -> Mapping {
    collect(tables.map_values(|table: Table| table_entry(table)))
}

/// What `mapping` holds for `parent`, if it holds the parent at all.
pub open spec fn parent_of(mapping: Mapping, parent: Text) -> Option<Map<Text, Text>> {
    if mapping.contains_key(parent) {
        Some(mapping[parent])
    } else {
        None
    }
}

/// The text that `mapping` holds for `name` under `parent`, if both are there.
pub open spec fn text_of(mapping: Mapping, parent: Text, name: Text) -> Option<Text> {
    if mapping.contains_key(parent) && mapping[parent].contains_key(name) {
        Some(mapping[parent][name])
    } else {
        None
    }
}

/// The mapping of a whole template file.
pub struct TemplateMap {
    parents: StringHashMap<Pair>,
}

impl View for TemplateMap {
    type V = Mapping;

    closed spec fn view(&self) -> Mapping {
        self.parents@.map_values(|pair: Pair| pair@)
    }
}

/// The mapping that an optional decoded file stands for.
pub open spec fn mapping_of(loaded: Option<TemplateMap>) -> Option<Mapping> {
    match loaded {
        Some(map) => Some(map@),
        None => None,
    }
}

impl Default for TemplateMap {
    /// A mapping without any parent.
    fn default() -> (map: TemplateMap)
        ensures
            map@ == Map::<Text, Map<Text, Text>>::empty(),
    {
        TemplateMap::new()
    }
}

impl TemplateMap {
    /// A mapping without any parent.
    pub fn new() -> (map: TemplateMap)
        ensures
            map@ == Map::<Text, Map<Text, Text>>::empty(),
    {
        let map = TemplateMap { parents: StringHashMap::new() };
        assert(map@ =~= Map::<Text, Map<Text, Text>>::empty());
        map
    }

    /// The mapping that `tables` describes, entered in order.
    pub fn from_entries(tables: Vec<(String, Vec<(String, String)>)>) -> (map: TemplateMap)
        ensures
            map@ == collect_tables(tables.deep_view()),
    {
        let ghost items = tables@;
        let ghost all = tables.deep_view();
        let ghost keyed = all.map_values(|table: Table| table_entry(table));
        let mut map = TemplateMap::new();
        for table in it: tables.into_iter()
            invariant
                it.seq() == items,
                all.len() == items.len(),
                keyed.len() == items.len(),
                forall|i: int|
                    0 <= i < items.len() ==> all[i] == (items[i].0@, items[i].1.deep_view()),
                forall|i: int| 0 <= i < items.len() ==> keyed[i] == table_entry(#[trigger] all[i]),
                map@ == collect(keyed.take(it.index() as int)),
        {
            let ghost done = it.index() as int;
            assert(keyed.take(done + 1).drop_last() == keyed.take(done));
            let (parent, entries) = table;
            let pair = Pair::from_entries(entries);
            assert(keyed[done] == table_entry(all[done]));
            map.insert(parent, pair);
        }
        assert(keyed.take(keyed.len() as int) == keyed);
        map
    }

    /// Binds `parent` to `pair`, replacing what `parent` was bound to.
    pub fn insert(&mut self, parent: String, pair: Pair)
        ensures
            final(self)@ == old(self)@.insert(parent@, pair@),
    {
        self.parents.insert(parent, pair);
        assert(self@ =~= old(self)@.insert(parent@, pair@));
    }

    /// The templates of `parent`, or `None` where the mapping lacks it.
    pub fn get(&self, parent: &str) -> (found: Option<&Pair>)
        ensures
            found is Some <==> self@.contains_key(parent@),
            found matches Some(pair) ==> pair@ == self@[parent@],
    {
        self.parents.get(parent)
    }

    /// Whether the mapping holds no parent.
    pub fn is_empty(&self) -> (b: bool)
        ensures
            b == self@.is_empty(),
    {
        assert(self@.dom() =~= self.parents@.dom());
        self.parents.is_empty()
    }
}

} // verus!
