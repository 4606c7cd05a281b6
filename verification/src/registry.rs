//! The registry of languages.

use vstd::prelude::*;
use crate::error::{Error, ErrorView};
use crate::expando::{pre_process_pattern, pre_processed, META_VAR_SIGIL};

verus! {

/// The mathematical model of a [`WasmLangInfo`].
pub struct WasmLangInfoView {
    pub library_path: Seq<char>,
    pub expando_char: Option<char>,
}

/// What a language is registered with: where its grammar is found, and
/// the expando character where the language needs one of its own.
#[derive(Debug, PartialEq, Eq)]
pub struct WasmLangInfo {
    /// Where the grammar of the language is loaded from.
    pub library_path: String,
    /// The character that stands in for the meta-variable sigil in source
    /// text of the language, where the sigil itself will not parse.
    pub expando_char: Option<char>,
}

impl View for WasmLangInfo {
    type V = WasmLangInfoView;

    open spec fn view(&self) -> WasmLangInfoView {
        WasmLangInfoView { library_path: self.library_path@, expando_char: self.expando_char }
    }
}

impl WasmLangInfoView {
    /// The expando character of the language: the one it was registered
    /// with, or the meta-variable sigil where it was registered with none.
    pub open spec fn expando(self) -> char {
        match self.expando_char {
            Some(c) => c,
            None => META_VAR_SIGIL,
        }
    }
}

/// The mathematical model of a [`Language`].
pub struct LanguageView {
    pub name: Seq<char>,
    pub info: WasmLangInfoView,
}

/// A language as the registry resolved it: the name and what was registered
/// under it at that moment. Later registrations do not reach it.
#[derive(Debug, PartialEq, Eq)]
pub struct Language {
    name: String,
    info: WasmLangInfo,
}

impl View for Language {
    type V = LanguageView;

    closed spec fn view(&self) -> LanguageView {
        LanguageView { name: self.name@, info: self.info@ }
    }
}

impl Language {
    /// The name under which the language was resolved.
    pub fn name(&self) -> (name: &str)
        ensures
            name@ == self@.name,
    {
        self.name.as_str()
    }

    /// Where the grammar of the language is loaded from.
    pub fn library_path(&self) -> (path: &str)
        ensures
            path@ == self@.info.library_path,
    {
        self.info.library_path.as_str()
    }

    /// The character that stands in for the meta-variable sigil in source
    /// text of the language.
    pub fn expando_char(&self) -> (c: char)
        ensures
            c == self@.info.expando(),
    {
        match self.info.expando_char {
            Some(c) => c,
            None => META_VAR_SIGIL,
        }
    }

    /// Makes a pattern text ready for the parser of the language.
    pub fn pre_process_pattern(&self, query: &str) -> (ready: String)
        ensures
            ready@ == pre_processed(query@, self@.info.expando()),
    {
        pre_process_pattern(self.expando_char(), query)
    }

    /// A second value of the same language.
    pub fn duplicate(&self) -> (copy: Language)
        ensures
            copy@ == self@,
    {
        Language {
            name: self.name.clone(),
            info: WasmLangInfo {
                library_path: self.info.library_path.clone(),
                expando_char: self.info.expando_char,
            },
        }
    }
}

/// The registry after a language was registered: the name resolves to the
/// new descriptor, whether or not it resolved before, and every other name
/// resolves as it did.
pub open spec fn registered(
    registry: Map<Seq<char>, WasmLangInfoView>,
    name: Seq<char>,
    info: WasmLangInfoView,
) -> Map<Seq<char>, WasmLangInfoView> {
    registry.insert(name, info)
}

/// What resolving a name in a registry gives: the language registered
/// under the name, or the failure that names the language.
pub open spec fn resolved(registry: Map<Seq<char>, WasmLangInfoView>, name: Seq<char>) -> Result<
    LanguageView,
    ErrorView,
> {
    if registry.contains_key(name) {
        Ok(LanguageView { name, info: registry[name] })
    } else {
        Err(ErrorView::UnsupportedLanguage { name })
    }
}

/// The model of the result of a resolution.
pub open spec fn resolution_view(r: Result<Language, Error>) -> Result<LanguageView, ErrorView> {
    match r {
        Ok(language) => Ok(language@),
        Err(e) => Err(e@),
    }
}

struct Entry {
    name: String,
    info: WasmLangInfo,
}

/// The languages that can be parsed and matched, by name. A registry is
/// made once and handed to every operation that resolves a language.
pub struct Registry {
    entries: Vec<Entry>,
}

impl Registry {
    #[verifier::type_invariant]
    closed spec fn names_are_distinct(self) -> bool {
        forall|i: int, j: int|
            0 <= i < j < self.entries.len() ==> self.entries[i].name@ != self.entries[j].name@
    }

    closed spec fn holds_at(self, name: Seq<char>, i: int) -> bool {
        0 <= i < self.entries.len() && self.entries[i].name@ == name
    }

    closed spec fn place_of(self, name: Seq<char>) -> int {
        choose|i: int| self.holds_at(name, i)
    }

    /// A registry without languages.
    pub fn new() -> (registry: Registry)
        ensures
            registry@ == Map::<Seq<char>, WasmLangInfoView>::empty(),
    {
        let registry = Registry { entries: Vec::new() };
        assert(registry@ =~= Map::<Seq<char>, WasmLangInfoView>::empty());
        registry
    }

    /// Registers a language under a name. Where the name is registered
    /// already, the new descriptor takes the place of the old one.
    pub fn register(&mut self, name: String, info: WasmLangInfo)
        ensures
            final(self)@ == registered(old(self)@, name@, info@),
    {
        proof {
            use_type_invariant(&*self);
        }
        let ghost before = *self;
        let mut entries: Vec<Entry> = Vec::new();
        core::mem::swap(&mut self.entries, &mut entries);
        let count = entries.len();
        let mut i: usize = 0;
        while i < count && entries[i].name != name
            invariant
                i <= count,
                count == entries.len(),
                entries == before.entries,
                forall|j: int| 0 <= j < i ==> entries[j].name@ != name@,
            decreases count - i,
        {
            i += 1;
        }
        if i < count {
            entries.set(i, Entry { name, info });
        } else {
            entries.push(Entry { name, info });
        }
        self.entries = entries;
        proof {
            let after = *self;
            let place = i as int;
            assert(after.holds_at(name@, place));
            assert forall|key: Seq<char>, k: int| key != name@ implies after.holds_at(key, k)
                == before.holds_at(key, k) by {}
            assert forall|key: Seq<char>|
                after@.contains_key(key) == registered(before@, name@, info@).contains_key(
                    key,
                ) by {
                if after@.contains_key(key) && key != name@ {
                    assert(before.holds_at(key, after.place_of(key)));
                }
                if before@.contains_key(key) && key != name@ {
                    assert(after.holds_at(key, before.place_of(key)));
                }
            }
            assert forall|key: Seq<char>| after@.contains_key(key) implies after@[key]
                == registered(before@, name@, info@)[key] by {
                let k = after.place_of(key);
                assert(after.holds_at(key, k));
                if key != name@ {
                    assert(before.holds_at(key, k));
                    assert(before.holds_at(key, before.place_of(key)));
                }
            }
            assert(after@ =~= registered(before@, name@, info@));
        }
    }

    /// Resolves a language by its name.
    pub fn resolve(&self, name: &str) -> (found: Result<Language, Error>)
        ensures
            resolution_view(found) == resolved(self@, name@),
    {
        proof {
            use_type_invariant(self);
        }
        let key = String::from_str(name);
        let count = self.entries.len();
        let mut i: usize = 0;
        while i < count
            invariant
                i <= count,
                count == self.entries.len(),
                key@ == name@,
                self.names_are_distinct(),
                forall|j: int| 0 <= j < i ==> self.entries[j].name@ != name@,
            decreases count - i,
        {
            if self.entries[i].name == key {
                let entry = &self.entries[i];
                let language = Language {
                    name: key,
                    info: WasmLangInfo {
                        library_path: entry.info.library_path.clone(),
                        expando_char: entry.info.expando_char,
                    },
                };
                proof {
                    assert(self.holds_at(name@, i as int));
                    let k = self.place_of(name@);
                    assert(self.holds_at(name@, k));
                    assert(k == i);
                }
                return Ok(language);
            }
            i += 1;
        }
        proof {
            if self@.contains_key(name@) {
                let k = self.place_of(name@);
                assert(self.holds_at(name@, k));
            }
        }
        Err(Error::UnsupportedLanguage { name: key })
    }
}

/// The model of a list of registrations: each name with its descriptor.
pub open spec fn registrations_view(langs: Seq<(String, WasmLangInfo)>) -> Seq<
    (Seq<char>, WasmLangInfoView),
> {
    langs.map_values(|lang: (String, WasmLangInfo)| (lang.0@, lang.1@))
}

/// The registry after the registrations of a list were made in order, so
/// that of two registrations of one name the later one stands.
pub open spec fn registered_all(
    registry: Map<Seq<char>, WasmLangInfoView>,
    langs: Seq<(Seq<char>, WasmLangInfoView)>,
) -> Map<Seq<char>, WasmLangInfoView>
    decreases langs.len(),
{
    if langs.len() == 0 {
        registry
    } else {
        registered(registered_all(registry, langs.drop_last()), langs.last().0, langs.last().1)
    }
}

/// Registers each language of the list, in order. Languages that were
/// registered before stay, except where the list names them again.
pub fn register_dynamic_language(registry: &mut Registry, langs: Vec<(String, WasmLangInfo)>)
    ensures
        final(registry)@ == registered_all(old(registry)@, registrations_view(langs@)),
{
    let ghost before = registry@;
    let ghost all = registrations_view(langs@);
    for lang in it: langs
        invariant
            all == registrations_view(it.seq()),
            registry@ == registered_all(before, all.take(it.index() as int)),
    {
        let (name, info) = lang;
        registry.register(name, info);
        proof {
            let done = all.take(it.index() + 1);
            assert(done.drop_last() =~= all.take(it.index() as int));
            assert(done.last() == all[it.index() as int]);
        }
    }
    assert(all.take(all.len() as int) =~= all);
}

impl View for Registry {
    type V = Map<Seq<char>, WasmLangInfoView>;

    closed spec fn view(&self) -> Map<Seq<char>, WasmLangInfoView> {
        Map::new(
            |name: Seq<char>| exists|i: int| self.holds_at(name, i),
            |name: Seq<char>| self.entries[self.place_of(name)].info@,
        )
    }
}

} // verus!
