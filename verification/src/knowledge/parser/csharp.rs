//! The C# parser as the registry knows it: its language name, the
//! extension it handles and its capability.

use vstd::prelude::*;

use crate::knowledge::parser::traits::{str_views, Parser, ParserCapability};

verus! {

/// The C# parser's description.
#[derive(Debug, Clone, Copy, PartialEq, Eq, Structural)]
pub struct CSharpParser {
    /// Reserved for parser options.
    pub options: u8,
}

impl CSharpParser {
    /// Creates the parser.
    pub fn new() -> (r: Self)
        ensures
            r.options == 0,
    {
        CSharpParser { options: 0 }
    }
}

impl CSharpParser {
    /// The value `new` returns.
    pub open spec fn new_spec() -> Self {
        CSharpParser { options: 0 }
    }
}

impl Default for CSharpParser {
    fn default() -> (r: Self)
        ensures
            r.options == 0,
    {
        CSharpParser::new()
    }
}

impl Parser for CSharpParser {
    open spec fn spec_extensions(&self) -> Seq<Seq<char>> {
        seq!["cs"@]
    }

    fn language_name(&self) -> (r: &'static str)
        ensures
            r@ == "C#"@,
    {
        "C#"
    }

    fn supported_extensions(&self) -> (r: Vec<&'static str>) {
        let r = vec!["cs"];
        assert(str_views(r@) =~= self.spec_extensions());
        r
    }

    fn capability(&self) -> (r: ParserCapability)
        ensures
            r == ParserCapability::Syntactic,
    {
        ParserCapability::Syntactic
    }
}

} // verus!
