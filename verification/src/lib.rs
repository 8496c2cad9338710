//! A small command-line flag parser: callers register flag patterns
//! (mandatory or optional, argument-taking or bare) together with a
//! conversion callback, then feed a token sequence to the consumer,
//! which populates a caller-supplied configuration object.

pub mod error;
pub mod laws;
pub mod model;
pub mod parser;
pub mod pattern;

pub use error::CliError;
pub use parser::{CliParser, ParseFailure, ParseFunc};
pub use pattern::{need_arg, PatternType};
