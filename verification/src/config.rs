//! Rule configurations made of a single pattern.

use vstd::prelude::*;

verus! {

/// The mathematical model of a [`PatternConfig`].
pub struct PatternConfigView {
    pub pattern: Seq<char>,
    pub language: Option<Seq<char>>,
}

/// A rule configuration that consists of one pattern: the pattern's text
/// as its rule, the language it is written for, and nothing else (no
/// constraints, no utility rules, no transformations).
#[derive(Debug, PartialEq, Eq)]
pub struct PatternConfig {
    /// The text of the pattern that is the rule.
    pub pattern: String,
    /// The name of the language the pattern is written for.
    pub language: Option<String>,
}

impl View for PatternConfig {
    type V = PatternConfigView;

    open spec fn view(&self) -> PatternConfigView {
        PatternConfigView {
            pattern: self.pattern@,
            language: match self.language {
                Some(name) => Some(name@),
                None => None,
            },
        }
    }
}

/// Packages a pattern as a rule configuration for the named language. The
/// pattern is not compiled and the language is not resolved.
pub fn pattern(lang: String, pattern_str: String) -> (config: PatternConfig)
    ensures
        config@ == (PatternConfigView { pattern: pattern_str@, language: Some(lang@) }),
{
    PatternConfig { pattern: pattern_str, language: Some(lang) }
}

} // verus!
