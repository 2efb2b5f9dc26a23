//! Casing policies for the names of fields and variants.

use vstd::prelude::*;
use vstd::string::*;
use convert_case::{Case, Casing};

verus! {

/// A casing policy. It applies to the names of fields and variants, never to
/// type text or to the name of a declaration.
#[derive(Clone, Copy, Debug, PartialEq, Eq, Structural)]
pub enum CasingDirective {
    LowerCase,
    UpperCase,
    PascalCase,
    CamelCase,
    SnakeCase,
    ScreamingSnakeCase,
    KebabCase,
    ScreamingKebabCase,
}

/// What `convert_case` makes of a name under a casing policy.
pub uninterp spec fn cased_text(name: Seq<char>, directive: CasingDirective) -> Seq<char>;

/// A name under an optional casing policy: unchanged where there is none.
pub open spec fn apply_casing(name: Seq<char>, directive: Option<CasingDirective>) -> Seq<char> {
    match directive {
        Some(d) => cased_text(name, d),
        None => name,
    }
}

/// Calls `convert_case::Casing::to_case` on the name, with the case of
/// `convert_case` that the policy stands for. The conversion depends on the
/// name and the case alone; its result is named, not described.
#[verifier::external_body]
fn to_case(name: &str, directive: CasingDirective) -> (out: String)
    ensures
        out@ == cased_text(name@, directive),
{
    let case = match directive {
        CasingDirective::LowerCase => Case::Lower,
        CasingDirective::UpperCase => Case::Upper,
        CasingDirective::PascalCase => Case::Pascal,
        CasingDirective::CamelCase => Case::Camel,
        CasingDirective::SnakeCase => Case::Snake,
        CasingDirective::ScreamingSnakeCase => Case::ScreamingSnake,
        CasingDirective::KebabCase => Case::Kebab,
        CasingDirective::ScreamingKebabCase => Case::UpperKebab,
    };
    name.to_case(case)
}

/// The name under an optional casing policy.
pub fn cased_name(name: &String, directive: Option<CasingDirective>) -> (out: String)
    ensures
        out@ == apply_casing(name@, directive),
{
    match directive {
        Some(d) => to_case(name.as_str(), d),
        None => name.clone(),
    }
}

} // verus!
