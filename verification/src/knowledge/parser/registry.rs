//! Registry of language parsers, keyed by lowercased file extension.

use vstd::prelude::*;

use crate::knowledge::parser::csharp::CSharpParser;
use crate::knowledge::parser::go::GoParser;
use crate::knowledge::parser::java::JavaParser;
use crate::knowledge::parser::python::PythonParser;
use crate::knowledge::parser::rust::RustParser;
use crate::knowledge::parser::traits::{str_views, Parser, ParserCapability};
use crate::knowledge::parser::typescript::TypeScriptParser;
use crate::text::{
    chars_eq, chars_of, extension_of_path, extension_of, str_eq, lowercased, to_lowercase,
};

verus! {

/// One of the built-in language parsers.
#[derive(Debug, Clone, Copy, PartialEq, Eq, Structural)]
pub enum LanguageParser {
    /// Rust (syn)
    Rust(RustParser),
    /// TypeScript or JavaScript (tree-sitter)
    TypeScript(TypeScriptParser),
    /// Python (tree-sitter)
    Python(PythonParser),
    /// Go (tree-sitter)
    Go(GoParser),
    /// Java (tree-sitter)
    Java(JavaParser),
    /// C#
    CSharp(CSharpParser),
}

/// The language name a parser declares.
pub open spec fn parser_language(p: LanguageParser) -> Seq<char> {
    match p {
        LanguageParser::Rust(_) => "Rust"@,
        LanguageParser::TypeScript(t) => if t.is_typescript {
            "TypeScript"@
        } else {
            "JavaScript"@
        },
        LanguageParser::Python(_) => "Python"@,
        LanguageParser::Go(_) => "Go"@,
        LanguageParser::Java(_) => "Java"@,
        LanguageParser::CSharp(_) => "C#"@,
    }
}

impl Parser for LanguageParser {
    open spec fn spec_extensions(&self) -> Seq<Seq<char>> {
        match *self {
            LanguageParser::Rust(p) => p.spec_extensions(),
            LanguageParser::TypeScript(p) => p.spec_extensions(),
            LanguageParser::Python(p) => p.spec_extensions(),
            LanguageParser::Go(p) => p.spec_extensions(),
            LanguageParser::Java(p) => p.spec_extensions(),
            LanguageParser::CSharp(p) => p.spec_extensions(),
        }
    }

    fn language_name(&self) -> (r: &'static str)
        ensures
            r@ == parser_language(*self),
    {
        match self {
            LanguageParser::Rust(p) => p.language_name(),
            LanguageParser::TypeScript(p) => p.language_name(),
            LanguageParser::Python(p) => p.language_name(),
            LanguageParser::Go(p) => p.language_name(),
            LanguageParser::Java(p) => p.language_name(),
            LanguageParser::CSharp(p) => p.language_name(),
        }
    }

    fn supported_extensions(&self) -> (r: Vec<&'static str>) {
        match self {
            LanguageParser::Rust(p) => p.supported_extensions(),
            LanguageParser::TypeScript(p) => p.supported_extensions(),
            LanguageParser::Python(p) => p.supported_extensions(),
            LanguageParser::Go(p) => p.supported_extensions(),
            LanguageParser::Java(p) => p.supported_extensions(),
            LanguageParser::CSharp(p) => p.supported_extensions(),
        }
    }

    fn capability(&self) -> (r: ParserCapability)
        ensures
            r == ParserCapability::Syntactic,
    {
        ParserCapability::Syntactic
    }
}

/// The parser registered for `key`: the last entry with that key.
pub open spec fn registry_lookup(es: Seq<(Seq<char>, LanguageParser)>, key: Seq<char>) -> Option<
    LanguageParser,
>
    decreases es.len(),
{
    if es.len() == 0 {
        None
    } else if es.last().0 == key {
        Some(es.last().1)
    } else {
        registry_lookup(es.drop_last(), key)
    }
}

/// The lowercased forms of some extensions.
pub open spec fn lowered(exts: Seq<Seq<char>>) -> Seq<Seq<char>> {
    exts.map_values(|e: Seq<char>| lowercased(e))
}

/// The lookup after registering `p` for the (lowercased) extensions `exts`
/// on top of `before`.
pub open spec fn lookup_after_register(
    before: Seq<(Seq<char>, LanguageParser)>,
    exts: Seq<Seq<char>>,
    p: LanguageParser,
    key: Seq<char>,
) -> Option<LanguageParser> {
    if lowered(exts).contains(key) {
        Some(p)
    } else {
        registry_lookup(before, key)
    }
}

/// The lookup of the built-in registry: the built-in parsers registered in
/// order Rust, TypeScript, JavaScript, Python, Go, Java, C# (a later
/// registration of an extension replaces an earlier one).
pub open spec fn builtin_lookup(key: Seq<char>) -> Option<LanguageParser> {
    if lowered(CSharpParser::new_spec().spec_extensions()).contains(key) {
        Some(LanguageParser::CSharp(CSharpParser::new_spec()))
    } else if lowered(JavaParser::new_spec().spec_extensions()).contains(key) {
        Some(LanguageParser::Java(JavaParser::new_spec()))
    } else if lowered(GoParser::new_spec().spec_extensions()).contains(key) {
        Some(LanguageParser::Go(GoParser::new_spec()))
    } else if lowered(PythonParser::new_spec().spec_extensions()).contains(key) {
        Some(LanguageParser::Python(PythonParser::new_spec()))
    } else if lowered(seq!["js"@, "jsx"@, "mjs"@, "cjs"@]).contains(key) {
        Some(LanguageParser::TypeScript(TypeScriptParser { is_typescript: false }))
    } else if lowered(seq!["ts"@, "tsx"@]).contains(key) {
        Some(LanguageParser::TypeScript(TypeScriptParser { is_typescript: true }))
    } else if lowered(seq!["rs"@]).contains(key) {
        Some(LanguageParser::Rust(RustParser { extract_calls: true }))
    } else {
        None
    }
}

/// The keys of registry entries, in order.
pub open spec fn registry_keys(es: Seq<(Seq<char>, LanguageParser)>) -> Seq<Seq<char>> {
    es.map_values(|e: (Seq<char>, LanguageParser)| e.0)
}

/// The names in a parser listing.
pub open spec fn listing_names(r: Seq<(&str, Vec<&str>)>) -> Seq<Seq<char>> {
    r.map_values(|e: (&str, Vec<&str>)| e.0@)
}

/// A parser listing as (language name, extensions) values.
pub open spec fn listing_view(r: Seq<(&str, Vec<&str>)>) -> Seq<(Seq<char>, Seq<Seq<char>>)> {
    r.map_values(|e: (&str, Vec<&str>)| (e.0@, str_views(e.1@)))
}

/// The language names of a listing.
pub open spec fn listed_languages(l: Seq<(Seq<char>, Seq<Seq<char>>)>) -> Seq<Seq<char>> {
    l.map_values(|e: (Seq<char>, Seq<Seq<char>>)| e.0)
}

/// The listing of registry entries: walking the entries in order, each
/// parser whose language name has not been listed yet is listed with its
/// declared extensions.
pub open spec fn registry_listing(es: Seq<(Seq<char>, LanguageParser)>) -> Seq<
    (Seq<char>, Seq<Seq<char>>),
>
    decreases es.len(),
{
    if es.len() == 0 {
        Seq::empty()
    } else {
        let prev = registry_listing(es.drop_last());
        let p = es.last().1;
        if listed_languages(prev).contains(parser_language(p)) {
            prev
        } else {
            prev.push((parser_language(p), p.spec_extensions()))
        }
    }
}

/// Registry of language parsers: maps lowercased file extensions to parsers.
pub struct ParserRegistry {
    parsers: Vec<(String, LanguageParser)>,
}

impl View for ParserRegistry {
    type V = Seq<(Seq<char>, LanguageParser)>;

    closed spec fn view(&self) -> Seq<(Seq<char>, LanguageParser)> {
        self.parsers@.map_values(|e: (String, LanguageParser)| (e.0@, e.1))
    }
}

/// Updating the last entry of a key changes that key's lookup only.
proof fn lemma_lookup_update(
    es: Seq<(Seq<char>, LanguageParser)>,
    i: int,
    p: LanguageParser,
    key: Seq<char>,
)
    requires
        0 <= i < es.len(),
        es[i].0 == key,
        forall|j: int| i < j < es.len() ==> es[j].0 != key,
    ensures
        forall|k: Seq<char>|
            #[trigger] registry_lookup(es.update(i, (key, p)), k) == if k == key {
                Some(p)
            } else {
                registry_lookup(es, k)
            },
    decreases es.len(),
{
    let nes = es.update(i, (key, p));
    assert forall|k: Seq<char>|
        #[trigger] registry_lookup(nes, k) == if k == key {
            Some(p)
        } else {
            registry_lookup(es, k)
        } by {
        if i == es.len() - 1 {
            assert(nes.drop_last() =~= es.drop_last());
        } else {
            lemma_lookup_update(es.drop_last(), i, p, key);
            assert(nes.drop_last() =~= es.drop_last().update(i, (key, p)));
            assert(registry_lookup(nes.drop_last(), k) == registry_lookup(
                es.drop_last().update(i, (key, p)),
                k,
            ));
        }
    }
}

/// No entry with the key means no lookup for it.
proof fn lemma_lookup_absent(es: Seq<(Seq<char>, LanguageParser)>, key: Seq<char>)
    requires
        forall|j: int| 0 <= j < es.len() ==> es[j].0 != key,
    ensures
        registry_lookup(es, key) is None,
    decreases es.len(),
{
    if es.len() > 0 {
        lemma_lookup_absent(es.drop_last(), key);
    }
}

/// Looking an extension up ignores its case: extensions that lowercase
/// alike find the same parser.
pub proof fn lemma_lookup_ignores_case(r: ParserRegistry, a: Seq<char>, b: Seq<char>)
    requires
        lowercased(a) == lowercased(b),
    ensures
        registry_lookup(r@, lowercased(a)) == registry_lookup(r@, lowercased(b)),
{
}

/// After a parser is registered, each of its extensions, in any case,
/// finds it.
pub proof fn lemma_registered_parser_found(
    before: Seq<(Seq<char>, LanguageParser)>,
    after: Seq<(Seq<char>, LanguageParser)>,
    p: LanguageParser,
    ext: Seq<char>,
    query: Seq<char>,
)
    requires
        forall|k: Seq<char>| #[trigger]
            registry_lookup(after, k) == lookup_after_register(before, p.spec_extensions(), p, k),
        p.spec_extensions().contains(ext),
        lowercased(query) == lowercased(ext),
    ensures
        registry_lookup(after, lowercased(query)) == Some(p),
{
    let j = choose|j: int| 0 <= j < p.spec_extensions().len() && p.spec_extensions()[j] == ext;
    assert(lowered(p.spec_extensions())[j] == lowercased(ext));
    assert(lowered(p.spec_extensions()).contains(lowercased(query)));
    assert(registry_lookup(after, lowercased(query)) == lookup_after_register(
        before,
        p.spec_extensions(),
        p,
        lowercased(query),
    ));
}

/// Registering a parser leaves the lookup of every other extension as it
/// was.
pub proof fn lemma_register_keeps_others(
    before: Seq<(Seq<char>, LanguageParser)>,
    after: Seq<(Seq<char>, LanguageParser)>,
    p: LanguageParser,
    key: Seq<char>,
)
    requires
        forall|k: Seq<char>| #[trigger]
            registry_lookup(after, k) == lookup_after_register(before, p.spec_extensions(), p, k),
        !lowered(p.spec_extensions()).contains(key),
    ensures
        registry_lookup(after, key) == registry_lookup(before, key),
{
    assert(registry_lookup(after, key) == lookup_after_register(before, p.spec_extensions(), p, key));
}

/// A found lookup comes from some entry.
proof fn lemma_lookup_found(es: Seq<(Seq<char>, LanguageParser)>, key: Seq<char>)
    ensures
        registry_lookup(es, key) is Some ==> exists|j: int|
            0 <= j < es.len() && es[j].0 == key && es[j].1 == registry_lookup(es, key)->0,
        (exists|j: int| 0 <= j < es.len() && es[j].0 == key) ==> registry_lookup(es, key) is Some,
    decreases es.len(),
{
    if es.len() > 0 {
        lemma_lookup_found(es.drop_last(), key);
        if es.last().0 != key {
            assert forall|j: int| 0 <= j < es.drop_last().len() implies es.drop_last()[j]
                == es[j] by {}
            if exists|j: int| 0 <= j < es.len() && es[j].0 == key {
                let j = choose|j: int| 0 <= j < es.len() && es[j].0 == key;
                assert(es.drop_last()[j].0 == key);
            }
        }
    }
}

impl ParserRegistry {
    /// An empty registry.
    pub fn empty() -> (r: Self)
        ensures
            r@.len() == 0,
    {
        let r = ParserRegistry { parsers: Vec::new() };
        assert(r@ =~= Seq::<(Seq<char>, LanguageParser)>::empty());
        r
    }

    /// Maps `key` to `parser`, replacing the parser of an existing entry.
    fn insert(&mut self, key: String, parser: LanguageParser)
        ensures
            forall|k: Seq<char>|
                #[trigger] registry_lookup(final(self)@, k) == if k == key@ {
                    Some(parser)
                } else {
                    registry_lookup(old(self)@, k)
                },
    {
        let ghost es = self@;
        let kc = chars_of(key.as_str());
        let mut i = self.parsers.len();
        while i > 0
            invariant
                i <= self.parsers@.len(),
                es == self@,
                es == old(self)@,
                kc@ == key@,
                forall|j: int| i <= j < es.len() ==> es[j].0 != key@,
            decreases i,
        {
            let c = chars_of(self.parsers[i - 1].0.as_str());
            assert(es[i - 1].0 == self.parsers@[i - 1].0@);
            if chars_eq(c.as_slice(), kc.as_slice()) {
                proof {
                    lemma_lookup_update(es, i - 1, parser, key@);
                }
                let ghost kv = key@;
                self.parsers.set(i - 1, (key, parser));
                assert(self@ =~= es.update(i - 1, (kv, parser)));
                assert forall|k: Seq<char>|
                    #[trigger] registry_lookup(self@, k) == if k == kv {
                        Some(parser)
                    } else {
                        registry_lookup(es, k)
                    } by {
                    assert(registry_lookup(es.update(i - 1, (kv, parser)), k) == if k == kv {
                        Some(parser)
                    } else {
                        registry_lookup(es, k)
                    });
                }
                return;
            }
            i = i - 1;
        }
        proof {
            lemma_lookup_absent(es, key@);
        }
        self.parsers.push((key, parser));
        assert(self@ =~= es.push((kc@, parser)));
        assert(self@.drop_last() =~= es);
        assert forall|k: Seq<char>|
            #[trigger] registry_lookup(self@, k) == if k == kc@ {
                Some(parser)
            } else {
                registry_lookup(es, k)
            } by {
            assert(self@.last() == (kc@, parser));
        }
    }

    /// Register a parser for each of its supported extensions (lowercased).
    /// A later registration of an extension replaces an earlier one.
    pub fn register(&mut self, parser: LanguageParser)
        ensures
            forall|k: Seq<char>|
                #[trigger] registry_lookup(final(self)@, k) == lookup_after_register(
                    old(self)@,
                    parser.spec_extensions(),
                    parser,
                    k,
                ),
    {
        let exts = parser.supported_extensions();
        let ghost before = self@;
        let ghost sx = parser.spec_extensions();
        let mut i: usize = 0;
        while i < exts.len()
            invariant
                i <= exts@.len(),
                str_views(exts@) == sx,
                sx == parser.spec_extensions(),
                forall|k: Seq<char>|
                    #[trigger] registry_lookup(self@, k) == lookup_after_register(
                        before,
                        sx.take(i as int),
                        parser,
                        k,
                    ),
            decreases exts.len() - i,
        {
            let key = to_lowercase(exts[i]);
            assert(sx[i as int] == exts@[i as int]@);
            let ghost kv = key@;
            let ghost prev = self@;
            self.insert(key, parser);
            let ghost lo = lowered(sx.take(i as int));
            assert(lowered(sx.take(i + 1)) =~= lo.push(kv));
            assert forall|k: Seq<char>|
                #[trigger] registry_lookup(self@, k) == lookup_after_register(
                    before,
                    sx.take(i + 1),
                    parser,
                    k,
                ) by {
                if k == kv {
                    assert(lo.push(kv)[lo.len() as int] == kv);
                } else {
                    if lo.push(kv).contains(k) {
                        let w = choose|w: int| 0 <= w < lo.push(kv).len() && lo.push(kv)[w] == k;
                        assert(lo[w] == k);
                    }
                    if lo.contains(k) {
                        let w = choose|w: int| 0 <= w < lo.len() && lo[w] == k;
                        assert(lo.push(kv)[w] == k);
                    }
                    assert(registry_lookup(prev, k) == lookup_after_register(
                        before,
                        sx.take(i as int),
                        parser,
                        k,
                    ));
                }
            }
            i = i + 1;
        }
        assert(sx.take(i as int) =~= sx);
    }

    /// Create a new registry with all built-in parsers.
    pub fn new() -> (r: Self)
        ensures
            forall|k: Seq<char>| #[trigger] registry_lookup(r@, k) == builtin_lookup(k),
    {
        let mut registry = ParserRegistry::empty();
        registry.register(LanguageParser::Rust(RustParser::new()));
        registry.register(LanguageParser::TypeScript(TypeScriptParser::typescript()));
        registry.register(LanguageParser::TypeScript(TypeScriptParser::javascript()));
        registry.register(LanguageParser::Python(PythonParser::new()));
        registry.register(LanguageParser::Go(GoParser::new()));
        registry.register(LanguageParser::Java(JavaParser::new()));
        registry.register(LanguageParser::CSharp(CSharpParser::new()));
        assert forall|k: Seq<char>| #[trigger]
            registry_lookup(registry@, k) == builtin_lookup(k) by {
            lemma_lookup_absent(Seq::<(Seq<char>, LanguageParser)>::empty(), k);
        }
        registry
    }

    /// Get a parser for the given file extension (case-insensitively).
    pub fn parser_for_extension(&self, extension: &str) -> (r: Option<LanguageParser>)
        ensures
            r == registry_lookup(self@, lowercased(extension@)),
    {
        let key = to_lowercase(extension);
        let kc = chars_of(key.as_str());
        let mut i = self.parsers.len();
        assert(self@.take(i as int) =~= self@);
        while i > 0
            invariant
                i <= self.parsers@.len(),
                self@.len() == self.parsers@.len(),
                kc@ == lowercased(extension@),
                registry_lookup(self@, kc@) == registry_lookup(self@.take(i as int), kc@),
            decreases i,
        {
            let ghost t = self@.take(i as int);
            assert(t.drop_last() =~= self@.take(i - 1));
            assert(t.last() == (self.parsers@[i - 1].0@, self.parsers@[i - 1].1));
            let c = chars_of(self.parsers[i - 1].0.as_str());
            if chars_eq(c.as_slice(), kc.as_slice()) {
                return Some(self.parsers[i - 1].1);
            }
            i = i - 1;
        }
        None
    }

    /// Get a parser for the given file path, by its extension.
    pub fn parser_for_path(&self, path: &str) -> (r: Option<LanguageParser>)
        ensures
            r == match extension_of(path@) {
                Some(e) => registry_lookup(self@, lowercased(e)),
                None => None,
            },
    {
        match extension_of_path(path) {
            Some(ext) => self.parser_for_extension(ext.as_str()),
            None => None,
        }
    }

    /// Whether some parser handles the given extension (case-insensitively).
    pub fn can_parse(&self, extension: &str) -> (r: bool)
        ensures
            r == registry_lookup(self@, lowercased(extension@)) is Some,
    {
        self.parser_for_extension(extension).is_some()
    }

    /// All registered (lowercased) extensions, in registration order.
    pub fn supported_extensions(&self) -> (r: Vec<&str>)
        ensures
            str_views(r@) == registry_keys(self@),
    {
        let mut r: Vec<&str> = Vec::new();
        let mut i: usize = 0;
        while i < self.parsers.len()
            invariant
                i <= self.parsers@.len(),
                self@.len() == self.parsers@.len(),
                str_views(r@) == registry_keys(self@.take(i as int)),
            decreases self.parsers.len() - i,
        {
            let ghost before = r@;
            r.push(self.parsers[i].0.as_str());
            assert(self@[i as int].0 == self.parsers@[i as int].0@);
            assert(self@.take(i + 1).drop_last() =~= self@.take(i as int));
            assert(str_views(r@) =~= str_views(before).push(self@[i as int].0));
            i = i + 1;
        }
        assert(self@.take(i as int) =~= self@);
        r
    }

    /// Position of the entry of `r` named `name`, if any.
    fn position_of_name(r: &Vec<(&'static str, Vec<&'static str>)>, name: &str) -> (pos: Option<
        usize,
    >)
        ensures
            match pos {
                Some(a) => a < r@.len() && r@[a as int].0@ == name@,
                None => !listing_names(r@).contains(name@),
            },
    {
        let mut k: usize = 0;
        while k < r.len()
            invariant
                k <= r@.len(),
                forall|a: int| 0 <= a < k ==> r@[a].0@ != name@,
            decreases r.len() - k,
        {
            if str_eq(r[k].0, name) {
                return Some(k);
            }
            k = k + 1;
        }
        proof {
            if listing_names(r@).contains(name@) {
                let a = choose|a: int| 0 <= a < r@.len() && listing_names(r@)[a] == name@;
                assert(r@[a].0@ == name@);
            }
        }
        None
    }

    /// The registered parsers, one per language name in order of first
    /// registration, each with the extensions it declares.
    pub fn list_parsers(&self) -> (r: Vec<(&'static str, Vec<&'static str>)>)
        ensures
            listing_view(r@) == registry_listing(self@),
    {
        let mut r: Vec<(&'static str, Vec<&'static str>)> = Vec::new();
        let mut i: usize = 0;
        assert(listing_view(r@) =~= registry_listing(self@.take(0)));
        while i < self.parsers.len()
            invariant
                i <= self.parsers@.len(),
                self@.len() == self.parsers@.len(),
                listing_view(r@) == registry_listing(self@.take(i as int)),
            decreases self.parsers.len() - i,
        {
            let p = self.parsers[i].1;
            assert(self@[i as int].1 == p);
            let ghost t = self@.take(i + 1);
            assert(t.drop_last() =~= self@.take(i as int));
            assert(t.last() == self@[i as int]);
            let name = p.language_name();
            let found = Self::position_of_name(&r, name);
            assert(listing_names(r@) =~= listed_languages(listing_view(r@)));
            assert(name@ == parser_language(p));
            match found {
                Some(a) => {
                    assert(listed_languages(listing_view(r@))[a as int] == name@);
                },
                None => {
                    let ghost before = r@;
                    let exts = p.supported_extensions();
                    r.push((name, exts));
                    assert(listing_view(r@) =~= listing_view(before).push(
                        (name@, p.spec_extensions()),
                    ));
                },
            }
            i = i + 1;
        }
        assert(self@.take(i as int) =~= self@);
        r
    }
}

impl Default for ParserRegistry {
    fn default() -> (r: Self)
        ensures
            forall|k: Seq<char>| #[trigger] registry_lookup(r@, k) == builtin_lookup(k),
    {
        ParserRegistry::new()
    }
}

} // verus!
