//! Strictness levels of matching.

use vstd::prelude::*;
use ast_grep_core::MatchStrictness;

verus! {

/// How closely a pattern's nodes must correspond to the nodes of a concrete
/// tree for the two to match.
#[derive(Clone, Copy, Debug, PartialEq, Eq, Structural)]
pub enum Strictness {
    /// Every node is matched.
    Cst,
    /// Every node but trivial source nodes is matched.
    Smart,
    /// Only named nodes are matched.
    Ast,
    /// Named nodes without comments are matched.
    Relaxed,
    /// Named nodes without comments are matched, and text is ignored.
    Signature,
    /// As relaxed, but kinds are ignored and only text is matched.
    Template,
}

/// The strictness that a name stands for, if it stands for one. The names
/// are the six lower-case words below, and nothing else is a name.
pub open spec fn strictness_named(name: Seq<char>) -> Option<Strictness> {
    if name == "cst"@ {
        Some(Strictness::Cst)
    } else if name == "smart"@ {
        Some(Strictness::Smart)
    } else if name == "ast"@ {
        Some(Strictness::Ast)
    } else if name == "relaxed"@ {
        Some(Strictness::Relaxed)
    } else if name == "signature"@ {
        Some(Strictness::Signature)
    } else if name == "template"@ {
        Some(Strictness::Template)
    } else {
        None
    }
}

/// Calls `MatchStrictness::from_str` of ast-grep-core, by way of
/// `str::parse`. That function compares its argument with the six names
/// of `strictness_named` and returns the variant of the same name, or an
/// error for any other string; this wrapper hands the variant on under the
/// library's own type and drops the error's text.
#[verifier::external_body]
pub(crate) fn match_strictness_from_str(name: &str) -> (found: Option<Strictness>)
    ensures
        found == strictness_named(name@),
{
    match name.parse::<MatchStrictness>() {
        Ok(MatchStrictness::Cst) => Some(Strictness::Cst),
        Ok(MatchStrictness::Smart) => Some(Strictness::Smart),
        Ok(MatchStrictness::Ast) => Some(Strictness::Ast),
        Ok(MatchStrictness::Relaxed) => Some(Strictness::Relaxed),
        Ok(MatchStrictness::Signature) => Some(Strictness::Signature),
        Ok(MatchStrictness::Template) => Some(Strictness::Template),
        Err(_) => None,
    }
}

/// The value `not-a-real-level` is the name of no strictness.
pub proof fn lemma_not_a_real_level()
    ensures
        strictness_named("not-a-real-level"@) is None,
{
    reveal_strlit("not-a-real-level");
    reveal_strlit("cst");
    reveal_strlit("smart");
    reveal_strlit("ast");
    reveal_strlit("relaxed");
    reveal_strlit("signature");
    reveal_strlit("template");
    let value = "not-a-real-level"@;
    assert(value.len() == 16);
    assert("cst"@.len() == 3);
    assert("smart"@.len() == 5);
    assert("ast"@.len() == 3);
    assert("relaxed"@.len() == 7);
    assert("signature"@.len() == 9);
    assert("template"@.len() == 8);
}

impl Default for Strictness {
    /// The strictness of a pattern for which none was asked.
    fn default() -> (strictness: Strictness)
        ensures
            strictness == Strictness::Smart,
    {
        Strictness::Smart
    }
}

} // verus!
