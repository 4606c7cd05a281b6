//! Parsed documents and kind lookups.

use vstd::prelude::*;
use crate::error::{Error, ErrorView};
use crate::node::{ConcreteNode, ConcreteNodeView};
use crate::registry::{registered, resolved, Language, LanguageView, WasmLangInfoView};

verus! {

/// The id that a kind lookup is answered with where the grammar defines no
/// kind of the name.
pub const UNKNOWN_KIND: u16 = 0;

/// The mathematical model of a [`Document`].
pub struct DocumentView {
    pub language: LanguageView,
    pub source: Seq<char>,
    pub root: ConcreteNodeView,
}

/// A parsed source text: the text, the language it was parsed as, and the
/// root of its concrete syntax tree. A document does not change once it is
/// made, and it holds its language as it was resolved then.
#[derive(Debug, PartialEq, Eq)]
pub struct Document {
    language: Language,
    source: String,
    root: ConcreteNode,
}

impl View for Document {
    type V = DocumentView;

    closed spec fn view(&self) -> DocumentView {
        DocumentView { language: self.language@, source: self.source@, root: self.root@ }
    }
}

impl Document {
    /// The language the document was parsed as.
    pub fn language(&self) -> (language: &Language)
        ensures
            language@ == self@.language,
    {
        &self.language
    }

    /// The source text of the document.
    pub fn source(&self) -> (source: &str)
        ensures
            source@ == self@.source,
    {
        self.source.as_str()
    }

    /// The root of the document's concrete syntax tree.
    pub fn root(&self) -> (root: &ConcreteNode)
        ensures
            root@ == self@.root,
    {
        &self.root
    }
}

/// The document that parsing gives: the language, the source and the tree
/// that the parser built, or the parser's failure.
pub open spec fn parsed(
    language: LanguageView,
    source: Seq<char>,
    tree: Result<ConcreteNodeView, Seq<char>>,
) -> Result<DocumentView, ErrorView> {
    match tree {
        Ok(root) => Ok(DocumentView { language, source, root }),
        Err(message) => Err(ErrorView::ParseError { message }),
    }
}

/// The model of what a parser hands back.
pub open spec fn tree_view(tree: Result<ConcreteNode, String>) -> Result<
    ConcreteNodeView,
    Seq<char>,
> {
    match tree {
        Ok(root) => Ok(root@),
        Err(message) => Err(message@),
    }
}

/// The model of the result of [`parse`].
pub open spec fn document_view(r: Result<Document, Error>) -> Result<DocumentView, ErrorView> {
    match r {
        Ok(document) => Ok(document@),
        Err(e) => Err(e@),
    }
}

/// Makes the document of a source text from what the parser of the
/// language built for it: the root of the tree, or the parser's diagnostic
/// where it built none.
pub fn parse(language: Language, src: String, tree: Result<ConcreteNode, String>) -> (document:
    Result<Document, Error>)
    ensures
        document_view(document) == parsed(language@, src@, tree_view(tree)),
{
    match tree {
        Ok(root) => Ok(Document { language, source: src, root }),
        Err(message) => Err(Error::ParseError { message }),
    }
}

/// Registering a name a second time leaves the registry as if only the
/// second registration had been made: the name resolves to the second
/// descriptor and every other name resolves as before. A document that was
/// made between the two registrations keeps the first descriptor.
pub proof fn law_registration_replaces(
    registry: Map<Seq<char>, WasmLangInfoView>,
    name: Seq<char>,
    first: WasmLangInfoView,
    second: WasmLangInfoView,
    source: Seq<char>,
    root: ConcreteNodeView,
)
    ensures
        ({
            let once = registered(registry, name, first);
            let twice = registered(once, name, second);
            &&& twice == registered(registry, name, second)
            &&& resolved(twice, name) == Ok::<LanguageView, ErrorView>(
                LanguageView { name, info: second },
            )
            &&& forall|other: Seq<char>|
                other != name ==> #[trigger] resolved(twice, other) == resolved(registry, other)
            &&& resolved(once, name) matches Ok(language) && parsed(language, source, Ok(root))
                == Ok::<DocumentView, ErrorView>(
                DocumentView { language: LanguageView { name, info: first }, source, root },
            )
        }),
{
    let once = registered(registry, name, first);
    let twice = registered(once, name, second);
    assert(twice =~= registered(registry, name, second));
}

/// The id of a kind, from what the grammar answered for the kind's name.
pub open spec fn kind_id(answer: Option<u16>) -> u16 {
    match answer {
        Some(id) => id,
        None => UNKNOWN_KIND,
    }
}

/// Answers a kind lookup: the id that the grammar has for the kind's name,
/// or [`UNKNOWN_KIND`] where the grammar has none. An unknown kind is no
/// failure.
pub fn kind(answer: Option<u16>) -> (id: u16)
    ensures
        id == kind_id(answer),
{
    match answer {
        Some(id) => id,
        None => UNKNOWN_KIND,
    }
}

} // verus!
