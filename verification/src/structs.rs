//! The struct emitter.

use vstd::prelude::*;
use vstd::string::*;
use crate::BuildState;
use crate::BuildSettings;
use crate::attributes::{Annotation, casing_policy, doc_lines, get_casing, get_comments, has_flatten, is_flattened};
use crate::casing::{CasingDirective, apply_casing, cased_name};
use crate::comments::{comment_block, render_comments};
use crate::declaration::{Field, export_keyword, export_token, extract_struct_generics, generics_text};
use crate::text::{build_indentation, indentation};
use crate::typescript::{Primitive, TypeExpression, convert_type, type_optional, type_text};

verus! {

/// The marker behind the name of a field whose type is optional.
pub open spec fn optional_token(optional: bool) -> Seq<char> {
    if optional {
        "?"@
    } else {
        Seq::empty()
    }
}

/// One field under the name that it is shown with: its comment block, then
/// `name: Type;` or `name?: Type;` on a line of its own.
pub open spec fn field_line(f: Field, shown_name: Seq<char>, indent: int) -> Seq<char> {
    comment_block(doc_lines(f.attrs@), indent) + indentation(indent) + shown_name + optional_token(
        type_optional(f.ty),
    ) + ": "@ + type_text(f.ty) + ";\n"@
}

/// One field under a casing policy. The policy changes the name only.
pub open spec fn field_text(f: Field, indent: int, case: Option<CasingDirective>) -> Seq<char> {
    field_line(f, apply_casing(f.name@, case), indent)
}

/// The fields that are not flattened, in order.
pub open spec fn fields_text(fields: Seq<Field>, indent: int, case: Option<CasingDirective>) -> Seq<
    char,
>
    decreases fields.len(),
{
    if fields.len() == 0 {
        Seq::empty()
    } else if is_flattened(fields.last().attrs@) {
        fields_text(fields.drop_last(), indent, case)
    } else {
        fields_text(fields.drop_last(), indent, case) + field_text(fields.last(), indent, case)
    }
}

/// How many fields are flattened.
pub open spec fn flattened_count(fields: Seq<Field>) -> nat
    decreases fields.len(),
{
    if fields.len() == 0 {
        0
    } else if is_flattened(fields.last().attrs@) {
        flattened_count(fields.drop_last()) + 1
    } else {
        flattened_count(fields.drop_last())
    }
}

/// The types of the flattened fields, in order, separated by ` & `.
pub open spec fn flattened_text(fields: Seq<Field>) -> Seq<char>
    decreases fields.len(),
{
    if fields.len() == 0 {
        Seq::empty()
    } else if !is_flattened(fields.last().attrs@) {
        flattened_text(fields.drop_last())
    } else if flattened_count(fields.drop_last()) == 0 {
        type_text(fields.last().ty)
    } else {
        flattened_text(fields.drop_last()) + " & "@ + type_text(fields.last().ty)
    }
}

/// The opening line of a struct: a type alias over an intersection where some
/// field is flattened, an interface otherwise.
pub open spec fn struct_header(
    name: Seq<char>,
    generics: Seq<String>,
    fields: Seq<Field>,
    ambient: bool,
) -> Seq<char> {
    if flattened_count(fields) > 0 {
        export_token(ambient) + "type "@ + name + generics_text(generics) + " = "@ + flattened_text(
            fields,
        ) + " & {\n"@
    } else {
        export_token(ambient) + "interface "@ + name + generics_text(generics) + " {\n"@
    }
}

/// The whole text of a struct: a blank line, its comment block, the opening
/// line, the plain fields at an indentation of two, and the closing brace.
pub open spec fn struct_text(
    name: Seq<char>,
    generics: Seq<String>,
    attrs: Seq<Annotation>,
    fields: Seq<Field>,
    ambient: bool,
) -> Seq<char> {
    "\n"@ + comment_block(doc_lines(attrs), 0) + struct_header(name, generics, fields, ambient)
        + fields_text(fields, 2, casing_policy(attrs)) + "}\n"@
}

/// Renders one field under the name that it is shown with.
pub fn render_field_line(f: &Field, shown_name: &str, indentation_amount: i8) -> (out: String)
    ensures
        out@ == field_line(*f, shown_name@, indentation_amount as int),
{
    let comments = get_comments(&f.attrs);
    let mut out = render_comments(&comments, indentation_amount);
    let space = build_indentation(indentation_amount);
    let field_type = convert_type(&f.ty);
    out.append(space.as_str());
    out.append(shown_name);
    if field_type.is_optional {
        out.append("?");
    }
    out.append(": ");
    out.append(field_type.ts_type.as_str());
    out.append(";\n");
    proof {
        assert(out@ =~= field_line(*f, shown_name@, indentation_amount as int));
    }
    out
}

/// Renders one field under a casing policy.
pub fn render_field(f: &Field, indentation_amount: i8, case: Option<CasingDirective>) -> (out:
    String)
    ensures
        out@ == field_text(*f, indentation_amount as int, case),
{
    let field_name = cased_name(&f.name, case);
    render_field_line(f, field_name.as_str(), indentation_amount)
}

/// Renders the fields that are not flattened.
pub fn render_fields(fields: &Vec<Field>, indentation_amount: i8, case: Option<CasingDirective>) -> (out:
    String)
    ensures
        out@ == fields_text(fields@, indentation_amount as int, case),
{
    let mut out = String::new();
    let mut i: usize = 0;
    while i < fields.len()
        invariant
            i <= fields.len(),
            out@ == fields_text(fields@.take(i as int), indentation_amount as int, case),
        decreases fields.len() - i,
    {
        proof {
            assert(fields@.take(i + 1).drop_last() =~= fields@.take(i as int));
        }
        if !has_flatten(&fields[i].attrs) {
            let piece = render_field(&fields[i], indentation_amount, case);
            out.append(piece.as_str());
        }
        i = i + 1;
    }
    proof {
        assert(fields@.take(fields.len() as int) =~= fields@);
    }
    out
}

/// Appends the fields that are not flattened to the output.
pub fn process_fields(
    fields: &Vec<Field>,
    state: &mut BuildState,
    indentation_amount: i8,
    case: Option<CasingDirective>,
)
    ensures
        final(state).types@ == old(state).types@ + fields_text(
            fields@,
            indentation_amount as int,
            case,
        ),
        final(state).unprocessed_files == old(state).unprocessed_files,
{
    let text = render_fields(fields, indentation_amount, case);
    state.types.append(text.as_str());
}

/// The intersection of the types of the flattened fields, where there is one.
pub fn get_intersections(fields: &Vec<Field>) -> (out: Option<String>)
    ensures
        out is Some <==> flattened_count(fields@) > 0,
        out is Some ==> out->Some_0@ == flattened_text(fields@),
{
    let mut text = String::new();
    let mut count: usize = 0;
    let mut i: usize = 0;
    while i < fields.len()
        invariant
            i <= fields.len(),
            count <= i,
            count == flattened_count(fields@.take(i as int)),
            count == 0 ==> text@ =~= Seq::<char>::empty(),
            text@ == flattened_text(fields@.take(i as int)),
        decreases fields.len() - i,
    {
        proof {
            assert(fields@.take(i + 1).drop_last() =~= fields@.take(i as int));
        }
        if has_flatten(&fields[i].attrs) {
            let field_type = convert_type(&fields[i].ty);
            if count > 0 {
                text.append(" & ");
            }
            text.append(field_type.ts_type.as_str());
            count = count + 1;
            proof {
                assert(text@ =~= flattened_text(fields@.take(i + 1)));
            }
        }
        i = i + 1;
    }
    proof {
        assert(fields@.take(fields.len() as int) =~= fields@);
    }
    if count == 0 {
        None
    } else {
        Some(text)
    }
}

/// Renders a struct.
pub fn render_struct(
    name: &String,
    generics: &Vec<String>,
    attrs: &Vec<Annotation>,
    fields: &Vec<Field>,
    config: &BuildSettings,
) -> (out: String)
    ensures
        out@ == struct_text(name@, generics@, attrs@, fields@, config.uses_type_interface),
{
    let casing = get_casing(attrs);
    let comments = get_comments(attrs);
    let block = render_comments(&comments, 0);
    let generics_part = extract_struct_generics(generics);
    let intersections = get_intersections(fields);
    let body = render_fields(fields, 2, casing);
    let mut out = String::new();
    out.append("\n");
    out.append(block.as_str());
    out.append(export_keyword(config.uses_type_interface));
    match intersections {
        Some(intersections) => {
            out.append("type ");
            out.append(name.as_str());
            out.append(generics_part.as_str());
            out.append(" = ");
            out.append(intersections.as_str());
            out.append(" & {\n");
        },
        None => {
            out.append("interface ");
            out.append(name.as_str());
            out.append(generics_part.as_str());
            out.append(" {\n");
        },
    }
    out.append(body.as_str());
    out.append("}\n");
    proof {
        assert(out@ =~= struct_text(
            name@,
            generics@,
            attrs@,
            fields@,
            config.uses_type_interface,
        ));
    }
    out
}

/// A struct without documentation, generics and casing policy that has one
/// flattened field and, behind it, one plain field `y` of the text type is
/// written as `type Name = X & {`, the line `y: string;` at an indentation of
/// two and the closing brace, where `X` is the text of the type of the
/// flattened field.
pub proof fn lemma_flatten_law(name: Seq<char>, flat: Field, plain: Field)
    requires
        is_flattened(flat.attrs@),
        !is_flattened(plain.attrs@),
        doc_lines(plain.attrs@).len() == 0,
        plain.name@ == "y"@,
        plain.ty == TypeExpression::Primitive(Primitive::Text),
    ensures
        struct_text(name, Seq::empty(), Seq::empty(), seq![flat, plain], false) == "\nexport type "@
            + name + " = "@ + type_text(flat.ty) + " & {\n  y: string;\n}\n"@,
{
    let fields = seq![flat, plain];
    let none = Seq::<Annotation>::empty();
    assert(fields.drop_last() =~= seq![flat]);
    assert(fields.drop_last().drop_last() =~= Seq::<Field>::empty());
    reveal_with_fuel(fields_text, 3);
    reveal_with_fuel(flattened_count, 3);
    reveal_with_fuel(flattened_text, 3);
    assert(doc_lines(none) =~= Seq::<Seq<char>>::empty());
    assert(fields_text(fields, 2, None) == field_line(plain, "y"@, 2));
    reveal_strlit("\n");
    reveal_strlit("export ");
    reveal_strlit("type ");
    reveal_strlit(" = ");
    reveal_strlit(" & {\n");
    reveal_strlit("}\n");
    reveal_strlit("y");
    reveal_strlit(": ");
    reveal_strlit("string");
    reveal_strlit(";\n");
    reveal_strlit("\nexport type ");
    reveal_strlit(" & {\n  y: string;\n}\n");
    assert(indentation(2) =~= seq![' ', ' ']);
    assert(field_line(plain, "y"@, 2) =~= seq![
        ' ', ' ', 'y', ':', ' ', 's', 't', 'r', 'i', 'n', 'g', ';', '\n',
    ]);
    assert(" & {\n  y: string;\n}\n"@ =~= " & {\n"@ + field_line(plain, "y"@, 2) + "}\n"@);
    assert("\nexport type "@ =~= "\n"@ + "export "@ + "type "@);
    assert(struct_text(name, Seq::empty(), none, fields, false) =~= "\nexport type "@ + name
        + " = "@ + type_text(flat.ty) + " & {\n  y: string;\n}\n"@);
}

} // verus!
