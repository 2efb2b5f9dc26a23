//! The declarations that a run translates.

use vstd::prelude::*;
use vstd::string::*;
use crate::attributes::Annotation;
use crate::typescript::TypeExpression;

verus! {

/// A named field of a struct or of a struct-like variant.
#[derive(Debug)]
pub struct Field {
    pub name: String,
    pub ty: TypeExpression,
    pub attrs: Vec<Annotation>,
}

/// What a variant of an enum carries.
#[derive(Debug)]
pub enum VariantPayload {
    Unit,
    Tuple(Vec<TypeExpression>),
    Struct(Vec<Field>),
}

/// A variant of an enum.
#[derive(Debug)]
pub struct Variant {
    pub name: String,
    pub payload: VariantPayload,
    pub attrs: Vec<Annotation>,
}

/// The kinds of declaration, each with what only it has.
#[derive(Debug)]
pub enum DeclarationKind {
    Const { ty: TypeExpression, value: String },
    Struct { fields: Vec<Field> },
    Enum { variants: Vec<Variant> },
    TypeAlias { target: TypeExpression },
}

/// A top-level declaration of the source.
#[derive(Debug)]
pub struct Declaration {
    pub name: String,
    pub generics: Vec<String>,
    pub attrs: Vec<Annotation>,
    pub kind: DeclarationKind,
}

/// The keyword in front of a declaration: none in an ambient declaration file.
pub open spec fn export_token(ambient: bool) -> Seq<char> {
    if ambient {
        Seq::empty()
    } else {
        "export "@
    }
}

/// The names of `names`, separated by `, `.
pub open spec fn names_joined(names: Seq<String>) -> Seq<char>
    decreases names.len(),
{
    if names.len() == 0 {
        Seq::empty()
    } else if names.len() == 1 {
        names[0]@
    } else {
        names_joined(names.drop_last()) + ", "@ + names.last()@
    }
}

/// The generic parameters of a declaration: `<A, B>`, or nothing where it has none.
pub open spec fn generics_text(names: Seq<String>) -> Seq<char> {
    if names.len() == 0 {
        Seq::empty()
    } else {
        "<"@ + names_joined(names) + ">"@
    }
}

pub fn export_keyword(ambient: bool) -> (out: &'static str)
    ensures
        out@ == export_token(ambient),
{
    if ambient {
        proof {
            reveal_strlit("");
            assert(""@ =~= Seq::<char>::empty());
        }
        ""
    } else {
        "export "
    }
}

/// Renders the generic parameters of a declaration.
pub fn extract_struct_generics(names: &Vec<String>) -> (out: String)
    ensures
        out@ == generics_text(names@),
{
    let mut out = String::new();
    if names.len() == 0 {
        return out;
    }
    out.append("<");
    let ghost head = out@;
    let mut i: usize = 0;
    proof {
        assert(out@ =~= head + names_joined(names@.take(0)));
    }
    while i < names.len()
        invariant
            i <= names.len(),
            out@ == head + names_joined(names@.take(i as int)),
        decreases names.len() - i,
    {
        proof {
            assert(names@.take(i + 1).drop_last() =~= names@.take(i as int));
        }
        if i > 0 {
            out.append(", ");
        }
        out.append(names[i].as_str());
        i = i + 1;
        proof {
            assert(out@ =~= head + names_joined(names@.take(i as int)));
        }
    }
    proof {
        assert(names@.take(names.len() as int) =~= names@);
        assert(head =~= "<"@);
    }
    out.append(">");
    out
}

} // verus!
