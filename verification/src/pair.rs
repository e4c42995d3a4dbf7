//! The inner level of the mapping: template names and their texts.

use vstd::hash_map::StringHashMap;
use vstd::prelude::*;

verus! {

/// A key or a template text, as contracts speak of it.
pub type Text = Seq<char>;

/// The map that a list of `(key, value)` entries describes: the entries are
/// entered in order, so of two entries with one key the later one stays.
pub open spec fn collect<V>(entries: Seq<(Text, V)>) -> Map<Text, V>
    decreases entries.len(),
{
    if entries.len() == 0 {
        Map::empty()
    } else {
        collect(entries.drop_last()).insert(entries.last().0, entries.last().1)
    }
}

/// The templates of one parent: a map from name to template text.
pub struct Pair {
    entries: StringHashMap<String>,
}

impl View for Pair {
    type V = Map<Text, Text>;

    closed spec fn view(&self) -> Map<Text, Text> {
        self.entries@.map_values(|text: String| text@)
    }
}

/// The map that an optional set of templates stands for.
pub open spec fn names_of(found: Option<&Pair>) -> Option<Map<Text, Text>> {
    match found {
        Some(pair) => Some(pair@),
        None => None,
    }
}

/// The text that an optional string stands for.
pub open spec fn text_view(found: Option<String>) -> Option<Text> {
    match found {
        Some(text) => Some(text@),
        None => None,
    }
}

impl Default for Pair {
    /// A parent's templates, none of them bound yet.
    fn default() -> (pair: Pair)
        ensures
            pair@ == Map::<Text, Text>::empty(),
    {
        Pair::new()
    }
}

impl Pair {
    /// A parent's templates, none of them bound yet.
    pub fn new() -> (pair: Pair)
        ensures
            pair@ == Map::<Text, Text>::empty(),
    {
        let pair = Pair { entries: StringHashMap::new() };
        assert(pair@ =~= Map::<Text, Text>::empty());
        pair
    }

    /// The templates that `entries` describes, entered in order.
    pub fn from_entries(entries: Vec<(String, String)>) -> (pair: Pair)
        ensures
            pair@ == collect(entries.deep_view()),
    {
        let ghost items = entries@;
        let ghost all = entries.deep_view();
        let mut pair = Pair::new();
        for entry in it: entries.into_iter()
            invariant
                it.seq() == items,
                all.len() == items.len(),
                forall|i: int| 0 <= i < items.len() ==> all[i] == (items[i].0@, items[i].1@),
                pair@ == collect(all.take(it.index() as int)),
        {
            let ghost done = it.index() as int;
            assert(all.take(done + 1).drop_last() == all.take(done));
            let (name, text) = entry;
            pair.insert(name, text);
        }
        assert(all.take(all.len() as int) == all);
        pair
    }

    /// Binds `name` to `text`, replacing what `name` was bound to.
    pub fn insert(&mut self, name: String, text: String)
        ensures
            final(self)@ == old(self)@.insert(name@, text@),
    {
        self.entries.insert(name, text);
        assert(self@ =~= old(self)@.insert(name@, text@));
    }

    /// The text bound to `key`, or `None` where `key` is not bound.
    pub fn get(&self, key: &str) -> (found: Option<&String>)
        ensures
            found is Some <==> self@.contains_key(key@),
            found matches Some(text) ==> text@ == self@[key@],
    {
        self.entries.get(key)
    }
}

} // verus!
