//! The type mapper: from a type expression to TypeScript type text.
//!
//! Conventions: a sequence is written `T[]`, a set `Set<T>`, a map
//! `Record<K, V>`, a tuple `[A, B]` and the unit type `null`. An optional
//! type is written as the type it wraps; that it is optional shows only in
//! the flag beside the text.

use vstd::prelude::*;
use vstd::string::*;
use crate::text::same_text;

verus! {

broadcast use vstd::std_specs::vec::axiom_vec_index_decreases;

/// The primitive types of the source language, by what they become.
#[derive(Clone, Copy, Debug)]
pub enum Primitive {
    /// Any integer or floating-point type.
    Number,
    Boolean,
    /// A string or a character.
    Text,
    Unit,
}

/// A type expression of the source language.
#[derive(Debug)]
pub enum TypeExpression {
    /// A plain name, such as a type parameter or another declaration.
    Identifier(String),
    /// A name applied to type arguments.
    Generic(String, Vec<TypeExpression>),
    Optional(Box<TypeExpression>),
    OrderedCollection(Box<TypeExpression>),
    SetOf(Box<TypeExpression>),
    MapOf(Box<TypeExpression>, Box<TypeExpression>),
    Tuple(Vec<TypeExpression>),
    Primitive(Primitive),
    /// Source text that has no known mapping; it is written out as it stands.
    Opaque(String),
}

/// What the type mapper gives: the type text, and whether the type was optional.
pub struct TsType {
    pub ts_type: String,
    pub is_optional: bool,
}

pub open spec fn primitive_text(p: Primitive) -> Seq<char> {
    match p {
        Primitive::Number => "number"@,
        Primitive::Boolean => "boolean"@,
        Primitive::Text => "string"@,
        Primitive::Unit => "null"@,
    }
}

/// The TypeScript text of a type expression.
pub open spec fn type_text(e: TypeExpression) -> Seq<char>
    decreases e, 0nat,
{
    match e {
        TypeExpression::Identifier(name) => name@,
        TypeExpression::Generic(name, args) => name@ + "<"@ + list_text(args, args.len() as nat)
            + ">"@,
        TypeExpression::Optional(inner) => type_text(*inner),
        TypeExpression::OrderedCollection(inner) => type_text(*inner) + "[]"@,
        TypeExpression::SetOf(inner) => "Set<"@ + type_text(*inner) + ">"@,
        TypeExpression::MapOf(key, value) => "Record<"@ + type_text(*key) + ", "@ + type_text(*value)
            + ">"@,
        TypeExpression::Tuple(items) => "["@ + list_text(items, items.len() as nat) + "]"@,
        TypeExpression::Primitive(p) => primitive_text(p),
        TypeExpression::Opaque(source) => source@,
    }
}

/// The texts of the first `n` expressions of `items`, separated by `, `.
pub open spec fn list_text(items: Vec<TypeExpression>, n: nat) -> Seq<char>
    decreases items, n,
{
    if n == 0 || n > items.len() {
        Seq::empty()
    } else if n == 1 {
        type_text(items[0])
    } else {
        list_text(items, (n - 1) as nat) + ", "@ + type_text(items[n - 1])
    }
}

/// Whether a type expression is an optional one. Only the outermost wrapper
/// counts: an optional type inside a collection does not make the collection
/// optional.
pub open spec fn type_optional(e: TypeExpression) -> bool {
    e is Optional
}

pub fn primitive_name(p: Primitive) -> (out: &'static str)
    ensures
        out@ == primitive_text(p),
{
    match p {
        Primitive::Number => "number",
        Primitive::Boolean => "boolean",
        Primitive::Text => "string",
        Primitive::Unit => "null",
    }
}

/// Renders the text of a type expression.
pub fn render_type(e: &TypeExpression) -> (out: String)
    ensures
        out@ == type_text(*e),
    decreases *e, 0nat,
{
    let mut out = String::new();
    match e {
        TypeExpression::Identifier(name) => {
            out.append(name.as_str());
            proof { assert(out@ =~= name@); }
        },
        TypeExpression::Generic(name, args) => {
            let inner = render_list(args, args.len());
            out.append(name.as_str());
            out.append("<");
            out.append(inner.as_str());
            out.append(">");
            proof { assert(out@ =~= type_text(*e)); }
        },
        TypeExpression::Optional(inner) => {
            let text = render_type(inner);
            out.append(text.as_str());
            proof { assert(out@ =~= type_text(*e)); }
        },
        TypeExpression::OrderedCollection(inner) => {
            let text = render_type(inner);
            out.append(text.as_str());
            out.append("[]");
            proof { assert(out@ =~= type_text(*e)); }
        },
        TypeExpression::SetOf(inner) => {
            let text = render_type(inner);
            out.append("Set<");
            out.append(text.as_str());
            out.append(">");
            proof { assert(out@ =~= type_text(*e)); }
        },
        TypeExpression::MapOf(key, value) => {
            let key_text = render_type(key);
            let value_text = render_type(value);
            out.append("Record<");
            out.append(key_text.as_str());
            out.append(", ");
            out.append(value_text.as_str());
            out.append(">");
            proof { assert(out@ =~= type_text(*e)); }
        },
        TypeExpression::Tuple(items) => {
            let inner = render_list(items, items.len());
            out.append("[");
            out.append(inner.as_str());
            out.append("]");
            proof { assert(out@ =~= type_text(*e)); }
        },
        TypeExpression::Primitive(p) => {
            out.append(primitive_name(*p));
            proof { assert(out@ =~= type_text(*e)); }
        },
        TypeExpression::Opaque(source) => {
            out.append(source.as_str());
            proof { assert(out@ =~= source@); }
        },
    }
    out
}

/// Renders the first `n` expressions of `items`, separated by `, `.
pub fn render_list(items: &Vec<TypeExpression>, n: usize) -> (out: String)
    ensures
        out@ == list_text(*items, n as nat),
    decreases *items, n,
{
    let mut out = String::new();
    if n == 0 || n > items.len() {
        return out;
    }
    if n == 1 {
        let text = render_type(&items[0]);
        out.append(text.as_str());
        proof { assert(out@ =~= list_text(*items, n as nat)); }
        return out;
    }
    let head = render_list(items, n - 1);
    let last = render_type(&items[n - 1]);
    out.append(head.as_str());
    out.append(", ");
    out.append(last.as_str());
    proof { assert(out@ =~= list_text(*items, n as nat)); }
    out
}

/// Maps a type expression to its TypeScript text and its optionality.
pub fn convert_type(e: &TypeExpression) -> (out: TsType)
    ensures
        out.ts_type@ == type_text(*e),
        out.is_optional == type_optional(*e),
{
    let is_optional = match e {
        TypeExpression::Optional(_) => true,
        _ => false,
    };
    TsType { ts_type: render_type(e), is_optional }
}

/// Whether a name of the source language is one of its number types.
pub open spec fn is_number_name(name: Seq<char>) -> bool {
    name == "i8"@ || name == "i16"@ || name == "i32"@ || name == "i64"@ || name == "i128"@ || name
        == "isize"@ || name == "u8"@ || name == "u16"@ || name == "u32"@ || name == "u64"@ || name
        == "u128"@ || name == "usize"@ || name == "f32"@ || name == "f64"@
}

/// The primitive type that a name of the source language stands for.
pub open spec fn primitive_of(name: Seq<char>) -> Option<Primitive> {
    if is_number_name(name) {
        Some(Primitive::Number)
    } else if name == "bool"@ {
        Some(Primitive::Boolean)
    } else if name == "String"@ || name == "str"@ || name == "char"@ {
        Some(Primitive::Text)
    } else {
        None
    }
}

pub open spec fn is_sequence_name(name: Seq<char>) -> bool {
    name == "Vec"@ || name == "VecDeque"@
}

pub open spec fn is_set_name(name: Seq<char>) -> bool {
    name == "HashSet"@ || name == "BTreeSet"@
}

pub open spec fn is_map_name(name: Seq<char>) -> bool {
    name == "HashMap"@ || name == "BTreeMap"@
}

/// The type expression that a name with its type arguments stands for. A
/// name without arguments is a primitive where it names one, and a plain
/// identifier otherwise. `Option`, the sequences and the sets take one
/// argument and the maps two; any other name with arguments, and any of
/// these with another number of arguments, is a generic type.
pub open spec fn classified(name: String, args: Vec<TypeExpression>) -> TypeExpression {
    if args.len() == 0 {
        match primitive_of(name@) {
            Some(p) => TypeExpression::Primitive(p),
            None => TypeExpression::Identifier(name),
        }
    } else if args.len() == 1 && name@ == "Option"@ {
        TypeExpression::Optional(Box::new(args[0]))
    } else if args.len() == 1 && is_sequence_name(name@) {
        TypeExpression::OrderedCollection(Box::new(args[0]))
    } else if args.len() == 1 && is_set_name(name@) {
        TypeExpression::SetOf(Box::new(args[0]))
    } else if args.len() == 2 && is_map_name(name@) {
        TypeExpression::MapOf(Box::new(args[0]), Box::new(args[1]))
    } else {
        TypeExpression::Generic(name, args)
    }
}

/// The primitive type that a name of the source language stands for.
pub fn primitive_named(name: &String) -> (out: Option<Primitive>)
    ensures
        out == primitive_of(name@),
{
    if same_text(name, "i8") || same_text(name, "i16") || same_text(name, "i32") || same_text(
        name,
        "i64",
    ) || same_text(name, "i128") || same_text(name, "isize") || same_text(name, "u8") || same_text(
        name,
        "u16",
    ) || same_text(name, "u32") || same_text(name, "u64") || same_text(name, "u128") || same_text(
        name,
        "usize",
    ) || same_text(name, "f32") || same_text(name, "f64") {
        Some(Primitive::Number)
    } else if same_text(name, "bool") {
        Some(Primitive::Boolean)
    } else if same_text(name, "String") || same_text(name, "str") || same_text(name, "char") {
        Some(Primitive::Text)
    } else {
        None
    }
}

impl TypeExpression {
    /// The type expression that a name with its type arguments stands for.
    pub fn from_path(name: String, args: Vec<TypeExpression>) -> (out: TypeExpression)
        ensures
            out == classified(name, args),
    {
        let mut rest = args;
        if rest.len() == 0 {
            return match primitive_named(&name) {
                Some(p) => TypeExpression::Primitive(p),
                None => {
                    proof {
                        assert(rest@ =~= args@);
                    }
                    TypeExpression::Identifier(name)
                },
            };
        }
        if rest.len() == 1 {
            if same_text(&name, "Option") {
                let inner = rest.pop().unwrap();
                return TypeExpression::Optional(Box::new(inner));
            }
            if same_text(&name, "Vec") || same_text(&name, "VecDeque") {
                let inner = rest.pop().unwrap();
                return TypeExpression::OrderedCollection(Box::new(inner));
            }
            if same_text(&name, "HashSet") || same_text(&name, "BTreeSet") {
                let inner = rest.pop().unwrap();
                return TypeExpression::SetOf(Box::new(inner));
            }
        }
        if rest.len() == 2 && (same_text(&name, "HashMap") || same_text(&name, "BTreeMap")) {
            let value = rest.pop().unwrap();
            let key = rest.pop().unwrap();
            return TypeExpression::MapOf(Box::new(key), Box::new(value));
        }
        TypeExpression::Generic(name, rest)
    }
}

/// Mapping an optional type gives the text of the wrapped type, and the
/// optional flag is set.
pub proof fn lemma_optional_maps_as_inner(inner: TypeExpression)
    ensures
        type_text(TypeExpression::Optional(Box::new(inner))) == type_text(inner),
        type_optional(TypeExpression::Optional(Box::new(inner))),
{
}

} // verus!
