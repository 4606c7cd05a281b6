//! The course of a dump: the request to the matching engine, its report,
//! and the tree or failure that comes of it.

use vstd::prelude::*;
use crate::error::{Error, ErrorView};
use crate::expando::pre_processed;
use crate::node::{ConcreteNode, ConcreteNodeView, PatternNode, PatternNodeView};
use crate::reconcile::{dump_pattern_node, dump_spec};
use crate::registry::{resolved, Language, LanguageView, Registry, WasmLangInfoView};
use crate::strictness::{
    lemma_not_a_real_level, match_strictness_from_str, strictness_named, Strictness,
};
use crate::text::optional_text;
use crate::tree::{PatternTree, PatternTreeView};

verus! {

/// The mathematical model of a [`DumpRequest`].
pub struct DumpRequestView {
    pub language: LanguageView,
    pub pattern: Seq<char>,
    pub source: Seq<char>,
    pub selector: Option<Seq<char>>,
    pub strictness: Strictness,
}

/// A dump that has passed language resolution and strictness parsing, and
/// now waits for the matching engine: it says which pattern to compile, in
/// which language, inside which selector if any, how strictly to match,
/// and which text to parse as the document that the pattern is matched
/// against.
#[derive(Debug, PartialEq, Eq)]
pub struct DumpRequest {
    language: Language,
    pattern: String,
    source: String,
    selector: Option<String>,
    strictness: Strictness,
}

impl View for DumpRequest {
    type V = DumpRequestView;

    closed spec fn view(&self) -> DumpRequestView {
        DumpRequestView {
            language: self.language@,
            pattern: self.pattern@,
            source: self.source@,
            selector: optional_text(self.selector),
            strictness: self.strictness,
        }
    }
}

impl DumpRequest {
    /// The language of the pattern.
    pub fn language(&self) -> (language: &Language)
        ensures
            language@ == self@.language,
    {
        &self.language
    }

    /// The text of the pattern, as its author wrote it.
    pub fn pattern(&self) -> (pattern: &str)
        ensures
            pattern@ == self@.pattern,
    {
        self.pattern.as_str()
    }

    /// The pattern text made ready for the parser of the language: the
    /// source of the document that the pattern is matched against.
    pub fn source(&self) -> (source: &str)
        ensures
            source@ == self@.source,
    {
        self.source.as_str()
    }

    /// The kind inside which the pattern is to be compiled, if there is
    /// one; without one the pattern is compiled as top-level source.
    pub fn selector(&self) -> (selector: Option<&str>)
        ensures
            match selector {
                Some(kind) => self@.selector == Some(kind@),
                None => self@.selector is None,
            },
    {
        match &self.selector {
            Some(kind) => Some(kind.as_str()),
            None => None,
        }
    }

    /// How strictly the pattern is to be matched.
    pub fn strictness(&self) -> (strictness: Strictness)
        ensures
            strictness == self@.strictness,
    {
        self.strictness
    }
}

/// The request that a dump makes of the matching engine once its language
/// and its strictness are known.
pub open spec fn request_of(
    language: LanguageView,
    pattern: Seq<char>,
    selector: Option<Seq<char>>,
    strictness: Strictness,
) -> DumpRequestView {
    DumpRequestView {
        language,
        pattern,
        source: pre_processed(pattern, language.info.expando()),
        selector,
        strictness,
    }
}

/// What becomes of a request for a dump before the matching engine is
/// asked anything. The language is resolved first, and an unregistered
/// name fails the request. Then the strictness is read: without one the
/// pattern is matched smartly, a name of a strictness stands for it, and
/// any other value fails the request.
pub open spec fn dump_request_spec(
    registry: Map<Seq<char>, WasmLangInfoView>,
    lang: Seq<char>,
    pattern: Seq<char>,
    selector: Option<Seq<char>>,
    strictness: Option<Seq<char>>,
) -> Result<DumpRequestView, ErrorView> {
    match resolved(registry, lang) {
        Err(e) => Err(e),
        Ok(language) => match strictness {
            None => Ok(request_of(language, pattern, selector, Strictness::Smart)),
            Some(value) => match strictness_named(value) {
                Some(strictness) => Ok(request_of(language, pattern, selector, strictness)),
                None => Err(ErrorView::InvalidStrictness { value }),
            },
        },
    }
}

/// The model of the result of [`dump_request`].
pub open spec fn request_view(r: Result<DumpRequest, Error>) -> Result<
    DumpRequestView,
    ErrorView,
> {
    match r {
        Ok(request) => Ok(request@),
        Err(e) => Err(e@),
    }
}

/// Opens a dump: resolves the language and reads the strictness, so that
/// every failure that does not need the matching engine comes before the
/// engine is asked.
pub fn dump_request(
    registry: &Registry,
    lang: &str,
    pattern_str: String,
    selector: Option<String>,
    strictness: Option<String>,
) -> (request: Result<DumpRequest, Error>)
    ensures
        request_view(request) == dump_request_spec(
            registry@,
            lang@,
            pattern_str@,
            optional_text(selector),
            optional_text(strictness),
        ),
{
    let language = match registry.resolve(lang) {
        Ok(language) => language,
        Err(e) => {
            return Err(e);
        },
    };
    let strictness = match strictness {
        None => Strictness::default(),
        Some(value) => match match_strictness_from_str(value.as_str()) {
            Some(strictness) => strictness,
            None => {
                return Err(Error::InvalidStrictness { value });
            },
        },
    };
    let source = language.pre_process_pattern(pattern_str.as_str());
    Ok(DumpRequest { language, pattern: pattern_str, source, selector, strictness })
}

/// The mathematical model of a [`MatchOutcome`].
pub enum MatchOutcomeView {
    CompileFailed { message: Seq<char> },
    NoMatch,
    Matched { pattern: PatternNodeView, node: ConcreteNodeView },
}

/// What the matching engine reports for a request.
#[derive(Debug, PartialEq, Eq)]
pub enum MatchOutcome {
    /// The pattern text could not be compiled; the message is the engine's
    /// diagnostic.
    CompileFailed { message: String },
    /// The pattern compiled, and matches nowhere in the document.
    NoMatch,
    /// The pattern compiled and matched.
    Matched {
        /// The root of the compiled pattern's matcher tree.
        pattern: PatternNode,
        /// The first concrete node that the pattern matches.
        node: ConcreteNode,
    },
}

impl View for MatchOutcome {
    type V = MatchOutcomeView;

    open spec fn view(&self) -> MatchOutcomeView {
        match self {
            MatchOutcome::CompileFailed { message } => MatchOutcomeView::CompileFailed {
                message: message@,
            },
            MatchOutcome::NoMatch => MatchOutcomeView::NoMatch,
            MatchOutcome::Matched { pattern, node } => MatchOutcomeView::Matched {
                pattern: pattern@,
                node: node@,
            },
        }
    }
}

/// What a dump gives for each report of the matching engine: the engine's
/// diagnostic as a compile failure, the absence of a match as a failure of
/// its own, and for a match the dump of the compiled pattern against the
/// matched node, with the expando character of the request's language.
pub open spec fn dump_pattern_spec(request: DumpRequestView, outcome: MatchOutcomeView) -> Result<
    PatternTreeView,
    ErrorView,
> {
    match outcome {
        MatchOutcomeView::CompileFailed { message } => Err(
            ErrorView::PatternCompileError { message },
        ),
        MatchOutcomeView::NoMatch => Err(ErrorView::NoRootMatch),
        MatchOutcomeView::Matched { pattern, node } => Ok(
            dump_spec(node, pattern, request.language.info.expando()),
        ),
    }
}

/// What a whole dump gives, from the first request to the tree: the
/// failure of the request where it fails, and else what the report of the
/// matching engine leads to.
pub open spec fn whole_dump(
    registry: Map<Seq<char>, WasmLangInfoView>,
    lang: Seq<char>,
    pattern: Seq<char>,
    selector: Option<Seq<char>>,
    strictness: Option<Seq<char>>,
    outcome: MatchOutcomeView,
) -> Result<PatternTreeView, ErrorView> {
    match dump_request_spec(registry, lang, pattern, selector, strictness) {
        Err(e) => Err(e),
        Ok(request) => dump_pattern_spec(request, outcome),
    }
}

/// A value that is the name of no strictness fails the dump with that
/// value, for every registered language, every pattern text and every
/// selector. No request is made, so the matching engine is not asked, and
/// whatever it would report, no tree is dumped.
pub proof fn law_strictness_gating(
    registry: Map<Seq<char>, WasmLangInfoView>,
    lang: Seq<char>,
    pattern: Seq<char>,
    selector: Option<Seq<char>>,
    value: Seq<char>,
    outcome: MatchOutcomeView,
)
    requires
        registry.contains_key(lang),
        strictness_named(value) is None,
    ensures
        dump_request_spec(registry, lang, pattern, selector, Some(value)) == Err::<
            DumpRequestView,
            ErrorView,
        >(ErrorView::InvalidStrictness { value }),
        whole_dump(registry, lang, pattern, selector, Some(value), outcome) == Err::<
            PatternTreeView,
            ErrorView,
        >(ErrorView::InvalidStrictness { value }),
{
}

/// The value `not-a-real-level` fails every dump in a registered language
/// as an invalid strictness, and no tree is dumped.
pub proof fn law_not_a_real_level_is_refused(
    registry: Map<Seq<char>, WasmLangInfoView>,
    lang: Seq<char>,
    pattern: Seq<char>,
    selector: Option<Seq<char>>,
    outcome: MatchOutcomeView,
)
    requires
        registry.contains_key(lang),
    ensures
        whole_dump(registry, lang, pattern, selector, Some("not-a-real-level"@), outcome) == Err::<
            PatternTreeView,
            ErrorView,
        >(ErrorView::InvalidStrictness { value: "not-a-real-level"@ }),
{
    lemma_not_a_real_level();
}

/// A dump in a language that is not registered fails at the resolution of
/// the language, whatever else is asked.
pub proof fn law_unregistered_language_is_refused(
    registry: Map<Seq<char>, WasmLangInfoView>,
    lang: Seq<char>,
    pattern: Seq<char>,
    selector: Option<Seq<char>>,
    strictness: Option<Seq<char>>,
    outcome: MatchOutcomeView,
)
    requires
        !registry.contains_key(lang),
    ensures
        whole_dump(registry, lang, pattern, selector, strictness, outcome) == Err::<
            PatternTreeView,
            ErrorView,
        >(ErrorView::UnsupportedLanguage { name: lang }),
{
}

/// The model of the result of [`dump_pattern`].
pub open spec fn dump_view(r: Result<PatternTree, Error>) -> Result<PatternTreeView, ErrorView> {
    match r {
        Ok(tree) => Ok(tree@),
        Err(e) => Err(e@),
    }
}

/// Finishes a dump with what the matching engine reported for the request:
/// either the whole tree or a failure, never a part of a tree.
pub fn dump_pattern(request: &DumpRequest, outcome: MatchOutcome) -> (dumped: Result<
    PatternTree,
    Error,
>)
    ensures
        dump_view(dumped) == dump_pattern_spec(request@, outcome@),
{
    match outcome {
        MatchOutcome::CompileFailed { message } => Err(Error::PatternCompileError { message }),
        MatchOutcome::NoMatch => Err(Error::NoRootMatch),
        MatchOutcome::Matched { pattern, node } => Ok(
            dump_pattern_node(&node, &pattern, request.language.expando_char()),
        ),
    }
}

} // verus!
