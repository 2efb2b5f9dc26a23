//! The attribute interpreter: what the annotations of a declaration, a field
//! or a variant say.
//!
//! An annotation is a flat triple. `#[tsync]` has the owner `tsync`, an empty
//! key and no value; `#[serde(flatten)]` has the owner `serde`, the key
//! `flatten` and no value; `#[serde(tag = "type")]` has the value `type`; a
//! documentation line has the owner `doc`, an empty key and its text as value.

use vstd::prelude::*;
use vstd::string::*;
use crate::text::{lines_of, same_text};
use crate::casing::CasingDirective;

verus! {

/// One annotation of the source.
#[derive(Debug)]
pub struct Annotation {
    pub owner: String,
    pub key: String,
    pub value: Option<String>,
}

/// The value of an annotation as text; empty where it has none.
pub open spec fn value_text(a: Annotation) -> Seq<char> {
    match a.value {
        Some(v) => v@,
        None => Seq::empty(),
    }
}

/// Whether some annotation has the given owner.
pub open spec fn has_owner(attrs: Seq<Annotation>, owner: Seq<char>) -> bool
    decreases attrs.len(),
{
    attrs.len() > 0 && (has_owner(attrs.drop_last(), owner) || attrs.last().owner@ == owner)
}

/// The value of the first annotation with the given owner and key.
pub open spec fn attribute_arg(attrs: Seq<Annotation>, owner: Seq<char>, key: Seq<char>) -> Option<
    Seq<char>,
>
    decreases attrs.len(),
{
    if attrs.len() == 0 {
        None
    } else {
        match attribute_arg(attrs.drop_last(), owner, key) {
            Some(v) => Some(v),
            None => if attrs.last().owner@ == owner && attrs.last().key@ == key {
                Some(value_text(attrs.last()))
            } else {
                None
            },
        }
    }
}

/// The documentation lines among the annotations, in order.
pub open spec fn doc_lines(attrs: Seq<Annotation>) -> Seq<Seq<char>>
    decreases attrs.len(),
{
    if attrs.len() == 0 {
        Seq::empty()
    } else if attrs.last().owner@ == "doc"@ {
        doc_lines(attrs.drop_last()).push(value_text(attrs.last()))
    } else {
        doc_lines(attrs.drop_last())
    }
}

/// Whether the annotations hold the export marker.
pub open spec fn is_exported(attrs: Seq<Annotation>) -> bool {
    has_owner(attrs, "tsync"@)
}

/// The casing policy that a `rename_all` value names. A value that names
/// none is no policy.
pub open spec fn casing_of(value: Option<Seq<char>>) -> Option<CasingDirective> {
    match value {
        None => None,
        Some(v) => if v == "lowercase"@ {
            Some(CasingDirective::LowerCase)
        } else if v == "UPPERCASE"@ {
            Some(CasingDirective::UpperCase)
        } else if v == "PascalCase"@ {
            Some(CasingDirective::PascalCase)
        } else if v == "camelCase"@ {
            Some(CasingDirective::CamelCase)
        } else if v == "snake_case"@ {
            Some(CasingDirective::SnakeCase)
        } else if v == "SCREAMING_SNAKE_CASE"@ {
            Some(CasingDirective::ScreamingSnakeCase)
        } else if v == "kebab-case"@ {
            Some(CasingDirective::KebabCase)
        } else if v == "SCREAMING-KEBAB-CASE"@ {
            Some(CasingDirective::ScreamingKebabCase)
        } else {
            None
        },
    }
}

/// The casing policy of a declaration: its `rename_all` value under `serde`.
pub open spec fn casing_policy(attrs: Seq<Annotation>) -> Option<CasingDirective> {
    casing_of(attribute_arg(attrs, "serde"@, "rename_all"@))
}

/// Whether a field is merged into the enclosing type.
pub open spec fn is_flattened(attrs: Seq<Annotation>) -> bool {
    attribute_arg(attrs, "serde"@, "flatten"@) is Some
}

/// The name of the tag field of an enum, where it has one.
pub open spec fn tag_field(attrs: Seq<Annotation>) -> Option<Seq<char>> {
    attribute_arg(attrs, "serde"@, "tag"@)
}

/// The label that a variant is renamed to, where it is.
pub open spec fn rename_override(attrs: Seq<Annotation>) -> Option<Seq<char>> {
    attribute_arg(attrs, "serde"@, "rename"@)
}

/// Whether some annotation has the given owner.
pub fn has_attribute(owner: &str, attrs: &Vec<Annotation>) -> (found: bool)
    ensures
        found == has_owner(attrs@, owner@),
{
    let mut found = false;
    let mut i: usize = 0;
    while i < attrs.len()
        invariant
            i <= attrs.len(),
            found == has_owner(attrs@.take(i as int), owner@),
        decreases attrs.len() - i,
    {
        proof {
            assert(attrs@.take(i + 1).drop_last() =~= attrs@.take(i as int));
        }
        if same_text(&attrs[i].owner, owner) {
            found = true;
        }
        i = i + 1;
    }
    proof {
        assert(attrs@.take(attrs.len() as int) =~= attrs@);
    }
    found
}

/// The value of the first annotation with the given owner and key; an empty
/// text where that annotation has no value.
pub fn get_attribute_arg(owner: &str, key: &str, attrs: &Vec<Annotation>) -> (out: Option<String>)
    ensures
        match out {
            Some(v) => attribute_arg(attrs@, owner@, key@) == Some(v@),
            None => attribute_arg(attrs@, owner@, key@) is None,
        },
{
    let mut out: Option<String> = None;
    let mut i: usize = 0;
    while i < attrs.len()
        invariant
            i <= attrs.len(),
            match out {
                Some(v) => attribute_arg(attrs@.take(i as int), owner@, key@) == Some(v@),
                None => attribute_arg(attrs@.take(i as int), owner@, key@) is None,
            },
        decreases attrs.len() - i,
    {
        proof {
            assert(attrs@.take(i + 1).drop_last() =~= attrs@.take(i as int));
        }
        if out.is_none() && same_text(&attrs[i].owner, owner) && same_text(&attrs[i].key, key) {
            out = Some(
                match &attrs[i].value {
                    Some(v) => v.clone(),
                    None => String::new(),
                },
            );
        }
        i = i + 1;
    }
    proof {
        assert(attrs@.take(attrs.len() as int) =~= attrs@);
    }
    out
}

/// The documentation lines among the annotations, in order.
pub fn get_comments(attrs: &Vec<Annotation>) -> (out: Vec<String>)
    ensures
        lines_of(out@) == doc_lines(attrs@),
{
    let mut out: Vec<String> = Vec::new();
    let mut i: usize = 0;
    proof {
        assert(lines_of(out@) =~= doc_lines(attrs@.take(0)));
    }
    while i < attrs.len()
        invariant
            i <= attrs.len(),
            lines_of(out@) == doc_lines(attrs@.take(i as int)),
        decreases attrs.len() - i,
    {
        proof {
            assert(attrs@.take(i + 1).drop_last() =~= attrs@.take(i as int));
        }
        if same_text(&attrs[i].owner, "doc") {
            let line = match &attrs[i].value {
                Some(v) => v.clone(),
                None => String::new(),
            };
            proof {
                crate::text::lemma_lines_of_push(out@, line);
            }
            out.push(line);
        }
        i = i + 1;
    }
    proof {
        assert(attrs@.take(attrs.len() as int) =~= attrs@);
    }
    out
}

/// Whether the annotations hold the export marker.
pub fn has_tsync_attribute(attrs: &Vec<Annotation>) -> (found: bool)
    ensures
        found == is_exported(attrs@),
{
    has_attribute("tsync", attrs)
}

/// The casing policy that a `rename_all` value names.
pub fn parse_serde_case(value: Option<String>) -> (out: Option<CasingDirective>)
    ensures
        out == casing_of(
            match value {
                Some(v) => Some(v@),
                None => None,
            },
        ),
{
    match value {
        None => None,
        Some(v) => {
            if same_text(&v, "lowercase") {
                Some(CasingDirective::LowerCase)
            } else if same_text(&v, "UPPERCASE") {
                Some(CasingDirective::UpperCase)
            } else if same_text(&v, "PascalCase") {
                Some(CasingDirective::PascalCase)
            } else if same_text(&v, "camelCase") {
                Some(CasingDirective::CamelCase)
            } else if same_text(&v, "snake_case") {
                Some(CasingDirective::SnakeCase)
            } else if same_text(&v, "SCREAMING_SNAKE_CASE") {
                Some(CasingDirective::ScreamingSnakeCase)
            } else if same_text(&v, "kebab-case") {
                Some(CasingDirective::KebabCase)
            } else if same_text(&v, "SCREAMING-KEBAB-CASE") {
                Some(CasingDirective::ScreamingKebabCase)
            } else {
                None
            }
        },
    }
}

/// The casing policy of a declaration.
pub fn get_casing(attrs: &Vec<Annotation>) -> (out: Option<CasingDirective>)
    ensures
        out == casing_policy(attrs@),
{
    parse_serde_case(get_attribute_arg("serde", "rename_all", attrs))
}

/// Whether a field is merged into the enclosing type.
pub fn has_flatten(attrs: &Vec<Annotation>) -> (out: bool)
    ensures
        out == is_flattened(attrs@),
{
    get_attribute_arg("serde", "flatten", attrs).is_some()
}

} // verus!
