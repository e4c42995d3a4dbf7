use std::path::PathBuf;
use template::{Pair, Plan, Template, TemplateMap, TemplateResolver, Templates, Timestamp};

fn at(nanos: i128) -> Option<Timestamp> {
    Some(Timestamp::from_nanos(nanos))
}

fn decoded(text: &str) -> Option<TemplateMap> {
    Some(TemplateMap::from_toml(text).expect("the test's own document decodes"))
}

fn hello_of(store: &Templates) -> Option<String> {
    store.get("greet").and_then(|pair: &Pair| pair.get("hello")).cloned()
}

const FIRST: &str = "[greet]\nhello = \"hi\"\n";
const SECOND: &str = "[greet]\nhello = \"hey\"\n[shout]\nhello = \"HEY\"\n";

fn loaded_store() -> Templates {
    Templates::new(PathBuf::from("templates.toml"), Timestamp::from_nanos(100), at(50), decoded(FIRST))
}

#[test]
fn new_store_loads_the_file() {
    let store = loaded_store();
    assert!(!store.is_empty());
    assert_eq!(hello_of(&store), Some("hi".to_string()));
    assert_eq!(store.template_file(), &PathBuf::from("templates.toml"));
}

#[test]
fn new_store_is_anchored_at_the_modification_time() {
    assert_eq!(loaded_store().last_load_time(), at(50));
    let later = Templates::new(PathBuf::from("t"), Timestamp::from_nanos(100), at(250), decoded(FIRST));
    assert_eq!(later.last_load_time(), at(250));
}

#[test]
fn new_store_without_a_file_is_empty_and_anchored_at_creation() {
    let store = Templates::new(PathBuf::from("missing.toml"), Timestamp::from_nanos(100), None, None);
    assert!(store.is_empty());
    assert_eq!(store.last_load_time(), at(100));
    assert!(store.get("greet").is_none());
    let ignored = Templates::new(PathBuf::from("missing.toml"), Timestamp::from_nanos(100), None, decoded(FIRST));
    assert!(ignored.is_empty());
    assert_eq!(ignored.last_load_time(), at(100));
}

#[test]
fn first_plan_reads_whenever_the_file_is_there() {
    assert_eq!(Templates::first_plan(at(0)), Plan::Reload);
    assert_eq!(Templates::first_plan(at(-5)), Plan::Reload);
    assert_eq!(Templates::first_plan(None), Plan::Unreachable);
}

#[test]
fn plan_is_unreachable_without_a_modification_time() {
    assert_eq!(loaded_store().plan(None), Plan::Unreachable);
    let unanchored = Templates::unanchored(PathBuf::from("t"), TemplateMap::new());
    assert_eq!(unanchored.plan(None), Plan::Unreachable);
}

#[test]
fn plan_is_inconsistent_without_an_anchor() {
    let store = Templates::unanchored(PathBuf::from("t"), TemplateMap::new());
    assert_eq!(store.plan(at(1)), Plan::Inconsistent);
    let holding = Templates::unanchored(PathBuf::from("t"), TemplateMap::from_toml(FIRST).unwrap());
    assert_eq!(holding.plan(at(1)), Plan::Inconsistent);
}

#[test]
fn plan_is_current_for_a_file_that_is_not_newer() {
    let store = loaded_store();
    assert_eq!(store.plan(at(50)), Plan::Current);
    assert_eq!(store.plan(at(49)), Plan::Current);
}

#[test]
fn plan_is_reload_for_a_newer_file() {
    assert_eq!(loaded_store().plan(at(51)), Plan::Reload);
}

#[test]
fn plan_is_reload_while_the_store_is_empty() {
    let store = Templates::new(PathBuf::from("t"), Timestamp::from_nanos(100), None, None);
    assert_eq!(store.plan(at(100)), Plan::Reload);
    assert_eq!(store.plan(at(1)), Plan::Reload);
}

#[test]
fn unchanged_file_is_not_read_again() {
    let mut store = loaded_store();
    assert_eq!(store.plan(at(50)), Plan::Current);
    store.refresh(at(50), decoded(SECOND));
    assert_eq!(hello_of(&store), Some("hi".to_string()));
    assert!(store.get("shout").is_none());
    assert_eq!(store.last_load_time(), at(50));
}

#[test]
fn edited_file_is_observed() {
    let mut store = loaded_store();
    let found = TemplateResolver::load(&mut store, "greet", "hello", at(60), decoded(SECOND));
    assert_eq!(found, Some("hey".to_string()));
    assert_eq!(store.last_load_time(), at(60));
    assert_eq!(
        store.get("shout").and_then(|pair| pair.get("hello")),
        Some(&"HEY".to_string())
    );
}

#[test]
fn absent_parent_is_not_found() {
    let mut store = loaded_store();
    assert_eq!(TemplateResolver::load(&mut store, "nobody", "hello", at(50), None), None);
    assert!(store.refresh_and_get("nobody", at(50), None).is_none());
    assert!(store.get("").is_none());
}

#[test]
fn absent_name_is_not_found() {
    let mut store = loaded_store();
    assert_eq!(TemplateResolver::load(&mut store, "greet", "bye", at(50), None), None);
    assert!(store.refresh_and_get("greet", at(50), None).is_some());
}

#[test]
fn deleted_file_keeps_the_loaded_data() {
    let mut store = loaded_store();
    store.refresh(None, None);
    assert_eq!(hello_of(&store), Some("hi".to_string()));
    assert_eq!(store.last_load_time(), at(50));
    let found = TemplateResolver::load(&mut store, "greet", "hello", None, decoded(SECOND));
    assert_eq!(found, Some("hi".to_string()));
}

#[test]
fn failed_load_keeps_the_loaded_data() {
    let mut store = loaded_store();
    assert_eq!(store.plan(at(90)), Plan::Reload);
    store.refresh(at(90), TemplateMap::from_toml("[greet\n"));
    assert_eq!(hello_of(&store), Some("hi".to_string()));
    assert_eq!(store.last_load_time(), at(50));
    assert_eq!(store.plan(at(90)), Plan::Reload);
}

#[test]
fn malformed_file_at_creation_is_retried() {
    let mut store = Templates::new(
        PathBuf::from("t"),
        Timestamp::from_nanos(100),
        at(50),
        TemplateMap::from_toml("greet = \n"),
    );
    assert!(store.is_empty());
    assert_eq!(store.last_load_time(), at(100));
    assert_eq!(store.plan(at(50)), Plan::Reload);
    let found = TemplateResolver::load(&mut store, "greet", "hello", at(50), decoded(FIRST));
    assert_eq!(found, Some("hi".to_string()));
    assert_eq!(store.last_load_time(), at(50));
}

#[test]
fn refresh_replaces_the_whole_mapping() {
    let mut store = Templates::new(PathBuf::from("t"), Timestamp::from_nanos(0), at(10), decoded(SECOND));
    store.refresh(at(20), decoded(FIRST));
    assert_eq!(hello_of(&store), Some("hi".to_string()));
    assert!(store.get("shout").is_none());
}

#[test]
fn store_that_decoded_to_nothing_reloads_every_time() {
    let mut store = Templates::new(PathBuf::from("t"), Timestamp::from_nanos(100), at(50), decoded(""));
    assert!(store.is_empty());
    assert_eq!(store.last_load_time(), at(50));
    assert_eq!(store.plan(at(50)), Plan::Reload);
    store.refresh(at(50), decoded(FIRST));
    assert_eq!(hello_of(&store), Some("hi".to_string()));
}

#[test]
fn anchor_stays_while_the_file_looks_older() {
    let mut store = loaded_store();
    store.refresh(at(40), decoded(SECOND));
    assert_eq!(store.last_load_time(), at(50));
    assert_eq!(hello_of(&store), Some("hi".to_string()));
    store.refresh(at(51), decoded(SECOND));
    assert_eq!(store.last_load_time(), at(51));
    assert_eq!(hello_of(&store), Some("hey".to_string()));
}

#[test]
fn unanchored_store_is_inert() {
    let mut store = Templates::unanchored(PathBuf::from("t"), TemplateMap::from_toml(FIRST).unwrap());
    assert_eq!(store.last_load_time(), None);
    store.refresh(at(1_000), decoded(SECOND));
    assert_eq!(hello_of(&store), Some("hi".to_string()));
    assert!(store.get("shout").is_none());
    assert_eq!(store.last_load_time(), None);
    let mut empty = Templates::unanchored(PathBuf::from("t"), TemplateMap::new());
    assert_eq!(TemplateResolver::load(&mut empty, "greet", "hello", at(1), decoded(FIRST)), None);
    assert!(empty.is_empty());
}

#[test]
fn refresh_and_get_answers_from_the_refreshed_mapping() {
    let mut store = loaded_store();
    let pair = store.refresh_and_get("shout", at(70), decoded(SECOND)).unwrap();
    assert_eq!(pair.get("hello"), Some(&"HEY".to_string()));
}

#[test]
fn load_hands_out_a_copy() {
    let mut store = loaded_store();
    let mut found = TemplateResolver::load(&mut store, "greet", "hello", at(50), None).unwrap();
    found.push_str(" there");
    assert_eq!(found, "hi there");
    assert_eq!(hello_of(&store), Some("hi".to_string()));
}

#[test]
fn refresh_keeps_the_path() {
    let mut store = loaded_store();
    store.refresh(at(60), decoded(SECOND));
    store.refresh(None, None);
    assert_eq!(store.template_file(), &PathBuf::from("templates.toml"));
}

struct Greeting {
    loud: bool,
}

impl Template for Greeting {
    fn parent() -> &'static str {
        "greet"
    }

    fn name() -> &'static str {
        "hello"
    }

    fn variant(&self) -> &'static str {
        if self.loud {
            "loud"
        } else {
            "plain"
        }
    }

    fn apply(&self, input: &str) -> Option<String> {
        if self.loud {
            Some(input.to_uppercase())
        } else {
            Some(input.to_string())
        }
    }
}

#[test]
fn template_names_what_it_loads() {
    let mut store = loaded_store();
    let text = TemplateResolver::load(&mut store, Greeting::parent(), Greeting::name(), at(50), None).unwrap();
    let loud = Greeting { loud: true };
    let plain = Greeting { loud: false };
    assert_eq!(loud.variant(), "loud");
    assert_eq!(plain.variant(), "plain");
    assert_eq!(loud.apply(&text), Some("HI".to_string()));
    assert_eq!(plain.apply(&text), Some("hi".to_string()));
}
