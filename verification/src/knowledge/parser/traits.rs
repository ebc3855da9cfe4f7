//! Parser descriptions: what a parser handles and how deeply it analyzes code.

use vstd::prelude::*;

use crate::text::{ascii_lower, chars_of};

verus! {

/// Level of parsing capability, ordered from shallow to deep.
#[derive(Debug, Clone, Copy, PartialEq, Eq, Structural)]
pub enum ParserCapability {
    /// Basic regex extraction - names and line numbers only.
    Basic,
    /// AST-based extraction - full signatures, generics, visibility.
    Syntactic,
    /// Semantic analysis - resolved types, call targets.
    Semantic,
}

/// Rank of a capability level (Basic < Structural < Semantic).
pub open spec fn capability_rank(c: ParserCapability) -> int {
    match c {
        ParserCapability::Basic => 0,
        ParserCapability::Syntactic => 1,
        ParserCapability::Semantic => 2,
    }
}

/// The display name of a capability level.
pub open spec fn capability_str(c: ParserCapability) -> Seq<char> {
    match c {
        ParserCapability::Basic => "Basic"@,
        ParserCapability::Syntactic => "Structural"@,
        ParserCapability::Semantic => "Semantic"@,
    }
}

impl ParserCapability {
    /// The display name of this capability level (its `Display` form).
    pub fn to_display_string(&self) -> (r: &'static str)
        ensures
            r@ == capability_str(*self),
    {
        match self {
            ParserCapability::Basic => "Basic",
            ParserCapability::Syntactic => "Structural",
            ParserCapability::Semantic => "Semantic",
        }
    }

    /// Whether this capability is strictly shallower than `other`.
    pub fn lt(&self, other: &ParserCapability) -> (r: bool)
        ensures
            r == (capability_rank(*self) < capability_rank(*other)),
    {
        let a: u8 = match self {
            ParserCapability::Basic => 0,
            ParserCapability::Syntactic => 1,
            ParserCapability::Semantic => 2,
        };
        let b: u8 = match other {
            ParserCapability::Basic => 0,
            ParserCapability::Syntactic => 1,
            ParserCapability::Semantic => 2,
        };
        a < b
    }
}

/// Equality up to ASCII case (what `str::eq_ignore_ascii_case` decides).
pub open spec fn eq_ignore_ascii_case(a: Seq<char>, b: Seq<char>) -> bool {
    a.len() == b.len() && forall|i: int| 0 <= i < a.len() ==> ascii_lower(a[i]) == ascii_lower(b[i])
}

fn ascii_lower_char(c: char) -> (r: char)
    ensures
        r == ascii_lower(c),
{
    if 'A' <= c && c <= 'Z' {
        let u: u8 = c as u8;
        assert(u == c as u32);
        ((u + 32) as u8) as char
    } else {
        c
    }
}

/// Decides equality up to ASCII case.
pub fn eq_ignore_case_chars(a: &[char], b: &[char]) -> (r: bool)
    ensures
        r == eq_ignore_ascii_case(a@, b@),
{
    if a.len() != b.len() {
        return false;
    }
    let mut i: usize = 0;
    while i < a.len()
        invariant
            a@.len() == b@.len(),
            i <= a@.len(),
            forall|j: int| 0 <= j < i ==> ascii_lower(a@[j]) == ascii_lower(b@[j]),
        decreases a.len() - i,
    {
        if ascii_lower_char(a[i]) != ascii_lower_char(b[i]) {
            return false;
        }
        i = i + 1;
    }
    true
}

/// The views of a list of string slices.
pub open spec fn str_views(v: Seq<&str>) -> Seq<Seq<char>> {
    v.map_values(|s: &str| s@)
}

/// What a language parser declares about itself: its language, the file
/// extensions it handles and its capability level.
pub trait Parser {
    /// The extensions this parser handles, as characters.
    spec fn spec_extensions(&self) -> Seq<Seq<char>>;

    /// Human-readable language name.
    fn language_name(&self) -> &'static str;

    /// File extensions this parser handles.
    fn supported_extensions(&self) -> (r: Vec<&'static str>)
        ensures
            str_views(r@) == self.spec_extensions(),
    ;

    /// Whether this parser handles the given extension, ignoring ASCII case.
    fn can_parse(&self, extension: &str) -> (r: bool)
        ensures
            r == exists|i: int|
                0 <= i < self.spec_extensions().len() && eq_ignore_ascii_case(
                    #[trigger] self.spec_extensions()[i],
                    extension@,
                ),
    {
        let exts = self.supported_extensions();
        let e = chars_of(extension);
        let mut i: usize = 0;
        while i < exts.len()
            invariant
                str_views(exts@) == self.spec_extensions(),
                e@ == extension@,
                i <= exts@.len(),
                forall|j: int|
                    0 <= j < i ==> !eq_ignore_ascii_case(
                        #[trigger] self.spec_extensions()[j],
                        extension@,
                    ),
            decreases exts.len() - i,
        {
            let x = chars_of(exts[i]);
            assert(self.spec_extensions()[i as int] == exts@[i as int]@);
            if eq_ignore_case_chars(x.as_slice(), e.as_slice()) {
                return true;
            }
            i = i + 1;
        }
        false
    }

    /// How deeply this parser analyzes code.
    fn capability(&self) -> (r: ParserCapability) {
        ParserCapability::Syntactic
    }
}

} // verus!
