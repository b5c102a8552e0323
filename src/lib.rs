//! Resolution of short typed commands into destination URLs.
//!
//! A registry maps each command's bindings to the rule that builds its URL.
//! The router resolves user aliases, dispatches `$` ticker tokens, looks the
//! first token up in the registry, and falls back to a search engine.
use vstd::prelude::*;

pub mod catalog;
pub mod command;
pub mod config;
pub mod encode;
pub mod registry;
pub mod text;

pub use catalog::{builtin_commands, BUILTIN_COUNT};
pub use command::{BunnylolCommandInfo, Command, OpenCommand, StockCommand, UrlRule};
pub use config::BunnylolConfig;
pub use registry::{BunnylolCommandRegistry, RegistryError};

verus! {

} // verus!
