//! The emitters for constants and type aliases.

use vstd::prelude::*;
use vstd::string::*;
use crate::attributes::{Annotation, doc_lines, get_comments};
use crate::comments::{comment_block, render_comments};
use crate::declaration::{export_keyword, export_token, extract_struct_generics, generics_text};
use crate::typescript::{TypeExpression, render_type, type_text};

verus! {

/// The whole text of a constant: a blank line, its comment block, then an
/// ambient declaration without value in an ambient declaration file, and an
/// exported binding with its value otherwise.
pub open spec fn const_text(
    name: Seq<char>,
    attrs: Seq<Annotation>,
    ty: TypeExpression,
    value: Seq<char>,
    ambient: bool,
) -> Seq<char> {
    if ambient {
        "\n"@ + comment_block(doc_lines(attrs), 0) + "declare const "@ + name + ": "@ + type_text(ty)
            + ";\n"@
    } else {
        "\n"@ + comment_block(doc_lines(attrs), 0) + "export const "@ + name + ": "@ + type_text(ty)
            + " = "@ + value + ";\n"@
    }
}

/// The whole text of a type alias: a blank line, its comment block, then
/// `type Name<Generics> = Target;`.
pub open spec fn alias_text(
    name: Seq<char>,
    generics: Seq<String>,
    attrs: Seq<Annotation>,
    target: TypeExpression,
    ambient: bool,
) -> Seq<char> {
    "\n"@ + comment_block(doc_lines(attrs), 0) + export_token(ambient) + "type "@ + name
        + generics_text(generics) + " = "@ + type_text(target) + ";\n"@
}

/// Renders a constant.
pub fn render_const(
    name: &String,
    attrs: &Vec<Annotation>,
    ty: &TypeExpression,
    value: &String,
    ambient: bool,
) -> (out: String)
    ensures
        out@ == const_text(name@, attrs@, *ty, value@, ambient),
{
    let comments = get_comments(attrs);
    let block = render_comments(&comments, 0);
    let type_part = render_type(ty);
    let mut out = String::new();
    out.append("\n");
    out.append(block.as_str());
    if ambient {
        out.append("declare const ");
        out.append(name.as_str());
        out.append(": ");
        out.append(type_part.as_str());
        out.append(";\n");
    } else {
        out.append("export const ");
        out.append(name.as_str());
        out.append(": ");
        out.append(type_part.as_str());
        out.append(" = ");
        out.append(value.as_str());
        out.append(";\n");
    }
    proof {
        assert(out@ =~= const_text(name@, attrs@, *ty, value@, ambient));
    }
    out
}

/// Renders a type alias.
pub fn render_alias(
    name: &String,
    generics: &Vec<String>,
    attrs: &Vec<Annotation>,
    target: &TypeExpression,
    ambient: bool,
) -> (out: String)
    ensures
        out@ == alias_text(name@, generics@, attrs@, *target, ambient),
{
    let comments = get_comments(attrs);
    let block = render_comments(&comments, 0);
    let generics_part = extract_struct_generics(generics);
    let type_part = render_type(target);
    let mut out = String::new();
    out.append("\n");
    out.append(block.as_str());
    out.append(export_keyword(ambient));
    out.append("type ");
    out.append(name.as_str());
    out.append(generics_part.as_str());
    out.append(" = ");
    out.append(type_part.as_str());
    out.append(";\n");
    proof {
        assert(out@ =~= alias_text(name@, generics@, attrs@, *target, ambient));
    }
    out
}

} // verus!
