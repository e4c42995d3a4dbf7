//! Decoding a template file's text.

use crate::mapping::{collect_tables, mapping_of, Mapping, TemplateMap};
use crate::nesting::{nests_within_limits, within_limits};
use std::collections::BTreeMap;
use vstd::prelude::*;

verus! {

/// What `toml::from_str` makes of `text` when asked for a table of tables of
/// strings: `None` where it reports an error, else the parents in ascending
/// order of their keys, each with its `(name, text)` entries in ascending
/// order of the names.
pub uninterp spec fn toml_tables(text: Seq<char>) -> Option<Seq<(Seq<char>, Seq<(Seq<char>, Seq<char>)>)>>;

/// The mapping that `text` decodes to, or `None` where it does not decode. A
/// text that passes a limit of nesting is not handed to the decoder and does
/// not decode.
pub open spec fn decoded(text: Seq<char>) -> Option<Mapping> {
    if within_limits(text) {
        match toml_tables(text) {
            Some(tables) => Some(collect_tables(tables)),
            None => None,
        }
    } else {
        None
    }
}

/// Calls `toml::from_str` on `text`, asking for a `BTreeMap` from `String` to
/// `BTreeMap` from `String` to `String`, and lists what it returned in the
/// maps' own (ascending) order. Trusted: that the outcome is a function of
/// `text` alone, named `toml_tables`; nothing is claimed of its value.
///
/// The parser calls itself once for each array or inline table that opens
/// inside another, and once for each part of a dotted key, and counts
/// neither. The `requires` keeps both small: the parser takes for brackets,
/// braces and dots those characters that the scan counts, and a dotted key
/// lies within one line.
#[verifier::external_body]
fn parse_tables(text: &str) -> (tables: Option<Vec<(String, Vec<(String, String)>)>>)
    requires
        within_limits(text@),
    ensures
        tables.deep_view() == toml_tables(text@),
{
    let parsed = toml::from_str::<BTreeMap<String, BTreeMap<String, String>>>(text).ok()?;
    Some(parsed.into_iter().map(|(parent, names)| (parent, names.into_iter().collect())).collect())
}

impl TemplateMap {
    /// Decodes the text of a template file: a TOML document whose top level
    /// holds one table per parent, each binding names to strings. A text
    /// that passes a limit of nesting is refused unread; the limits lie far
    /// above what such a document needs, whose brackets nest one deep and
    /// whose keys hold one dot at most.
    pub fn from_toml(text: &str) -> (map: Option<TemplateMap>)
        ensures
            mapping_of(map) == decoded(text@),
            !within_limits(text@) ==> map is None,
    {
        if !nests_within_limits(text) {
            return None;
        }
        match parse_tables(text) {
            Some(tables) => Some(TemplateMap::from_entries(tables)),
            None => None,
        }
    }
}

} // verus!
