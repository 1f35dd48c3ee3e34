//! Delimiter-scoped recursive-descent parsing primitives for the Nenyr
//! styling language: a token cursor, located diagnostics, and the
//! combinators that parse a region between a pair of delimiters.

pub mod tokens;
pub mod error;
pub mod lexer;
pub mod parser;
pub mod delimiters;
pub mod import;
pub mod ordered_map;
pub mod class;

pub use error::{DelimiterKind, FailedRule, NenyrError, NenyrErrorKind, NenyrErrorTracing, NenyrResult};
pub use parser::NenyrParser;
pub use tokens::NenyrTokens;
pub use import::NenyrImportValidator;
pub use class::{NenyrStyleClass, NenyrTypefaces};
