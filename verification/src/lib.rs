//! Hot-reloadable text templates keyed by `(parent, name)`.
//!
//! The crate is the I/O-free heart of a template store: it decides when the
//! backing file has to be read again, decodes its contents, and answers
//! lookups. Whoever drives it performs the file-system calls and hands in what
//! they observed.

pub mod decode;
pub mod laws;
pub mod mapping;
pub mod model;
pub mod nesting;
pub mod pair;
pub mod resolver;
pub mod store;
pub mod time;

pub use mapping::TemplateMap;
pub use model::Plan;
pub use pair::Pair;
pub use resolver::{Template, TemplateResolver};
pub use store::Templates;
pub use time::Timestamp;
