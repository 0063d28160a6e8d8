//! Typed literal materialization: given the text of a reference expression and a
//! raw value found under a key, produce the text of a new literal of the same
//! category, or a precise error.
//!
//! Two forms use the same engine. The decorator form (`env_item`) takes a constant or
//! static declaration and replaces its initializer; the inline form (`env_lit`) takes
//! a key and a default expression and replaces the whole call. Where nothing is found
//! under the key, both give back what was written.
//!
//! Tokens are held as text throughout. Parsing and printing are the parser's work,
//! reached through the functions of `syntax`, whose results the contracts name;
//! everything that is decided on those results is verified.

pub mod category;
pub mod error;
pub mod syntax;
pub mod classify;
pub mod synthesize;
pub mod key;
pub mod env;
pub mod engine;
pub mod item;
pub mod inline;

pub use crate::category::{Category, ReferenceLiteral};
pub use crate::classify::classify;
pub use crate::engine::value_to_literal;
pub use crate::env::{ReadEnv, TestEnv, TestEnvBuilder};
pub use crate::error::{Error, ErrorKind, Site};
pub use crate::inline::{env_lit, MacroInput};
pub use crate::item::{env_item, from_env, try_from_env};
pub use crate::key::resolve;
pub use crate::synthesize::{synthesize, SynthesizedLiteral};
