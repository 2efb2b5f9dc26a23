//! The enum emitter.
//!
//! An enum with a tag field becomes a union of objects, each with the tag
//! field set to the label of its variant. Without a tag field a unit variant
//! is the string literal of its label, a tuple variant a tuple and a
//! struct-like variant an object of its fields. Where constant enums are
//! switched on, an enum of unit variants alone and without tag field becomes
//! a `const enum`. The comment block of a variant stands above its member.

use vstd::prelude::*;
use vstd::string::*;
use crate::BuildSettings;
use crate::attributes::{
    Annotation, casing_policy, doc_lines, get_attribute_arg, get_casing, get_comments,
    rename_override, tag_field,
};
use crate::casing::{CasingDirective, apply_casing, cased_name};
use crate::comments::{comment_block, render_comments};
use crate::declaration::{
    Variant, VariantPayload, export_keyword, export_token, extract_struct_generics, generics_text,
};
use crate::structs::{fields_text, render_fields};
use crate::typescript::{list_text, render_list};

verus! {

/// The label of a variant: what it is renamed to, else its name under the
/// casing policy of the enum.
pub open spec fn variant_label(v: Variant, case: Option<CasingDirective>) -> Seq<char> {
    match rename_override(v.attrs@) {
        Some(label) => label,
        None => apply_casing(v.name@, case),
    }
}

/// The fields of a struct-like variant, at an indentation of six, under the
/// casing policy of the variant itself; nothing for the other variants.
pub open spec fn payload_fields_text(v: Variant) -> Seq<char> {
    match v.payload {
        VariantPayload::Struct(fields) => fields_text(fields@, 6, casing_policy(v.attrs@)),
        _ => Seq::empty(),
    }
}

/// The comment block of a variant, at an indentation of two.
pub open spec fn variant_comments(v: Variant) -> Seq<char> {
    comment_block(doc_lines(v.attrs@), 2)
}

/// One member of a tagged union, on a new line: the comment block of the
/// variant, then an object with the tag field set to the label and the
/// fields of the variant.
pub open spec fn tagged_member(v: Variant, tag: Seq<char>, label: Seq<char>) -> Seq<char> {
    "\n"@ + variant_comments(v) + "  | {\n      "@ + tag + ": \""@ + label + "\";\n"@
        + payload_fields_text(v) + "    }"@
}

/// What stands behind the bar of a member of a union without tag: the label
/// as a string literal for a unit variant, a tuple for a tuple variant and an
/// object for a struct-like variant.
pub open spec fn plain_shape(v: Variant, label: Seq<char>) -> Seq<char> {
    match v.payload {
        VariantPayload::Unit => "\""@ + label + "\""@,
        VariantPayload::Tuple(items) => "["@ + list_text(items, items.len() as nat) + "]"@,
        VariantPayload::Struct(fields) => "{\n"@ + payload_fields_text(v) + "    }"@,
    }
}

/// One member of a union without tag, on a new line: the comment block of
/// the variant, then the bar and the shape.
pub open spec fn plain_member(v: Variant, label: Seq<char>) -> Seq<char> {
    "\n"@ + variant_comments(v) + "  | "@ + plain_shape(v, label)
}

/// One member of a constant enum: the comment block of the variant, then
/// the name of the variant, set to the label.
pub open spec fn const_member(v: Variant, label: Seq<char>) -> Seq<char> {
    variant_comments(v) + "  "@ + v.name@ + " = \""@ + label + "\",\n"@
}

/// The three ways in which the members of an enum are written.
#[derive(Clone, Copy, Debug, PartialEq, Eq, Structural)]
pub enum MemberStyle {
    Tagged,
    Plain,
    Constant,
}

/// One member in the given style, under the given label. The tag is read in
/// the tagged style only.
pub open spec fn labelled_member(
    v: Variant,
    style: MemberStyle,
    tag: Seq<char>,
    label: Seq<char>,
) -> Seq<char> {
    match style {
        MemberStyle::Tagged => tagged_member(v, tag, label),
        MemberStyle::Plain => plain_member(v, label),
        MemberStyle::Constant => const_member(v, label),
    }
}

/// One member in the given style, under the label of the variant.
pub open spec fn member_text(
    v: Variant,
    style: MemberStyle,
    tag: Seq<char>,
    case: Option<CasingDirective>,
) -> Seq<char> {
    labelled_member(v, style, tag, variant_label(v, case))
}

/// The members of an enum, in the order of its variants.
pub open spec fn members_text(
    variants: Seq<Variant>,
    style: MemberStyle,
    tag: Seq<char>,
    case: Option<CasingDirective>,
) -> Seq<char>
    decreases variants.len(),
{
    if variants.len() == 0 {
        Seq::empty()
    } else {
        members_text(variants.drop_last(), style, tag, case) + member_text(
            variants.last(),
            style,
            tag,
            case,
        )
    }
}

/// Whether no variant carries anything.
pub open spec fn all_unit(variants: Seq<Variant>) -> bool
    decreases variants.len(),
{
    variants.len() == 0 || (all_unit(variants.drop_last()) && variants.last().payload
        is Unit)
}

/// The right-hand side of a union: its members, or `never` where there is none.
pub open spec fn union_text(
    variants: Seq<Variant>,
    style: MemberStyle,
    tag: Seq<char>,
    case: Option<CasingDirective>,
) -> Seq<char> {
    if variants.len() == 0 {
        " never"@
    } else {
        members_text(variants, style, tag, case)
    }
}

/// The declaration itself, behind the comment block.
pub open spec fn enum_body(
    name: Seq<char>,
    generics: Seq<String>,
    attrs: Seq<Annotation>,
    variants: Seq<Variant>,
    settings: BuildSettings,
) -> Seq<char> {
    let export = export_token(settings.uses_type_interface);
    let case = casing_policy(attrs);
    match tag_field(attrs) {
        Some(tag) => export + "type "@ + name + generics_text(generics) + " ="@ + union_text(
            variants,
            MemberStyle::Tagged,
            tag,
            case,
        ) + ";\n"@,
        None => if settings.enable_const_enums && all_unit(variants) {
            export + "const enum "@ + name + " {\n"@ + members_text(
                variants,
                MemberStyle::Constant,
                Seq::empty(),
                case,
            ) + "}\n"@
        } else {
            export + "type "@ + name + generics_text(generics) + " ="@ + union_text(
                variants,
                MemberStyle::Plain,
                Seq::empty(),
                case,
            ) + ";\n"@
        },
    }
}

/// The whole text of an enum: a blank line, its comment block, the declaration.
pub open spec fn enum_text(
    name: Seq<char>,
    generics: Seq<String>,
    attrs: Seq<Annotation>,
    variants: Seq<Variant>,
    settings: BuildSettings,
) -> Seq<char> {
    "\n"@ + comment_block(doc_lines(attrs), 0) + enum_body(name, generics, attrs, variants, settings)
}

/// Renders the label of a variant.
pub fn render_label(v: &Variant, case: Option<CasingDirective>) -> (out: String)
    ensures
        out@ == variant_label(*v, case),
{
    match get_attribute_arg("serde", "rename", &v.attrs) {
        Some(label) => label,
        None => cased_name(&v.name, case),
    }
}

/// Renders the fields of a struct-like variant.
pub fn render_payload_fields(v: &Variant) -> (out: String)
    ensures
        out@ == payload_fields_text(*v),
{
    match &v.payload {
        VariantPayload::Struct(fields) => render_fields(fields, 6, get_casing(&v.attrs)),
        _ => String::new(),
    }
}

/// Renders what stands behind the bar of a member of a union without tag.
pub fn render_plain_shape(v: &Variant, label: &str) -> (out: String)
    ensures
        out@ == plain_shape(*v, label@),
{
    let mut out = String::new();
    match &v.payload {
        VariantPayload::Unit => {
            out.append("\"");
            out.append(label);
            out.append("\"");
        },
        VariantPayload::Tuple(items) => {
            let inner = render_list(items, items.len());
            out.append("[");
            out.append(inner.as_str());
            out.append("]");
        },
        VariantPayload::Struct(_) => {
            let fields = render_payload_fields(v);
            out.append("{\n");
            out.append(fields.as_str());
            out.append("    }");
        },
    }
    proof {
        assert(out@ =~= plain_shape(*v, label@));
    }
    out
}

/// Renders one member in the given style, under the given label.
pub fn render_labelled_member(v: &Variant, style: MemberStyle, tag: &str, label: &str) -> (out:
    String)
    ensures
        out@ == labelled_member(*v, style, tag@, label@),
{
    let comments = get_comments(&v.attrs);
    let block = render_comments(&comments, 2);
    let mut out = String::new();
    match style {
        MemberStyle::Tagged => {
            let fields = render_payload_fields(v);
            out.append("\n");
            out.append(block.as_str());
            out.append("  | {\n      ");
            out.append(tag);
            out.append(": \"");
            out.append(label);
            out.append("\";\n");
            out.append(fields.as_str());
            out.append("    }");
            proof {
                assert(out@ =~= tagged_member(*v, tag@, label@));
            }
        },
        MemberStyle::Plain => {
            let shape = render_plain_shape(v, label);
            out.append("\n");
            out.append(block.as_str());
            out.append("  | ");
            out.append(shape.as_str());
            proof {
                assert(out@ =~= plain_member(*v, label@));
            }
        },
        MemberStyle::Constant => {
            out.append(block.as_str());
            out.append("  ");
            out.append(v.name.as_str());
            out.append(" = \"");
            out.append(label);
            out.append("\",\n");
            proof {
                assert(out@ =~= const_member(*v, label@));
            }
        },
    }
    out
}

/// Renders one member in the given style, under the label of the variant.
pub fn render_member(v: &Variant, style: MemberStyle, tag: &str, case: Option<CasingDirective>) -> (out:
    String)
    ensures
        out@ == member_text(*v, style, tag@, case),
{
    let label = render_label(v, case);
    render_labelled_member(v, style, tag, label.as_str())
}

/// Renders the members of an enum, in the order of its variants.
pub fn render_members(
    variants: &Vec<Variant>,
    style: MemberStyle,
    tag: &str,
    case: Option<CasingDirective>,
) -> (out: String)
    ensures
        out@ == members_text(variants@, style, tag@, case),
{
    let mut out = String::new();
    let mut i: usize = 0;
    while i < variants.len()
        invariant
            i <= variants.len(),
            out@ == members_text(variants@.take(i as int), style, tag@, case),
        decreases variants.len() - i,
    {
        proof {
            assert(variants@.take(i + 1).drop_last() =~= variants@.take(i as int));
        }
        let piece = render_member(&variants[i], style, tag, case);
        out.append(piece.as_str());
        i = i + 1;
    }
    proof {
        assert(variants@.take(variants.len() as int) =~= variants@);
    }
    out
}

/// Whether no variant carries anything.
pub fn is_all_unit(variants: &Vec<Variant>) -> (out: bool)
    ensures
        out == all_unit(variants@),
{
    let mut out = true;
    let mut i: usize = 0;
    while i < variants.len()
        invariant
            i <= variants.len(),
            out == all_unit(variants@.take(i as int)),
        decreases variants.len() - i,
    {
        proof {
            assert(variants@.take(i + 1).drop_last() =~= variants@.take(i as int));
        }
        match &variants[i].payload {
            VariantPayload::Unit => {},
            _ => {
                out = false;
            },
        }
        i = i + 1;
    }
    proof {
        assert(variants@.take(variants.len() as int) =~= variants@);
    }
    out
}

/// Renders the right-hand side of a union.
pub fn render_union(
    variants: &Vec<Variant>,
    style: MemberStyle,
    tag: &str,
    case: Option<CasingDirective>,
) -> (out: String)
    ensures
        out@ == union_text(variants@, style, tag@, case),
{
    if variants.len() == 0 {
        String::from_str(" never")
    } else {
        render_members(variants, style, tag, case)
    }
}

/// Renders an enum.
pub fn render_enum(
    name: &String,
    generics: &Vec<String>,
    attrs: &Vec<Annotation>,
    variants: &Vec<Variant>,
    config: &BuildSettings,
) -> (out: String)
    ensures
        out@ == enum_text(name@, generics@, attrs@, variants@, *config),
{
    let case = get_casing(attrs);
    let comments = get_comments(attrs);
    let block = render_comments(&comments, 0);
    let generics_part = extract_struct_generics(generics);
    let tag = get_attribute_arg("serde", "tag", attrs);
    let mut out = String::new();
    out.append("\n");
    out.append(block.as_str());
    out.append(export_keyword(config.uses_type_interface));
    proof {
        reveal_strlit("");
        assert(""@ =~= Seq::<char>::empty());
    }
    match tag {
        Some(tag) => {
            let members = render_union(variants, MemberStyle::Tagged, tag.as_str(), case);
            out.append("type ");
            out.append(name.as_str());
            out.append(generics_part.as_str());
            out.append(" =");
            out.append(members.as_str());
            out.append(";\n");
        },
        None => {
            if config.enable_const_enums && is_all_unit(variants) {
                let members = render_members(variants, MemberStyle::Constant, "", case);
                out.append("const enum ");
                out.append(name.as_str());
                out.append(" {\n");
                out.append(members.as_str());
                out.append("}\n");
            } else {
                let members = render_union(variants, MemberStyle::Plain, "", case);
                out.append("type ");
                out.append(name.as_str());
                out.append(generics_part.as_str());
                out.append(" =");
                out.append(members.as_str());
                out.append(";\n");
            }
        },
    }
    proof {
        assert(out@ =~= enum_text(name@, generics@, attrs@, variants@, *config));
    }
    out
}

} // verus!
