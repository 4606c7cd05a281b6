//! Dumps of compiled code patterns against the concrete syntax trees they
//! match.
//!
//! A pattern is compiled by a matching engine into a matcher tree and
//! matched against a parsed document. This library reconciles the matcher
//! tree with the matched node, and gives a tree that shows, node by node,
//! what the pattern stands for in the source: its kind, its span, its
//! captured text. Around that it keeps the registry of languages, prepares
//! pattern texts for parsing and decides in which order a dump can fail.
//!
//! The parser and the matching engine are not part of the library: a host
//! runs them and hands over what they report as plain values.

pub mod config;
pub mod document;
pub mod dump;
pub mod error;
pub mod expando;
pub mod node;
pub mod position;
pub mod reconcile;
pub mod registry;
pub mod strictness;
pub mod text;
pub mod tree;

pub use config::{pattern, PatternConfig};
pub use document::{kind, parse, Document, UNKNOWN_KIND};
pub use dump::{dump_pattern, dump_request, DumpRequest, MatchOutcome};
pub use error::Error;
pub use node::{ConcreteNode, PatternNode};
pub use position::{PatternPos, Point};
pub use reconcile::dump_pattern_node;
pub use registry::{register_dynamic_language, Language, Registry, WasmLangInfo};
pub use strictness::Strictness;
pub use tree::{PatternKind, PatternTree};
