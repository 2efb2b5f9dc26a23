//! Translation of exported type declarations into TypeScript definitions.
//!
//! A run takes a list of declarations, keeps those that carry the export
//! marker and appends the TypeScript text of each, in order, to one buffer.

use vstd::prelude::*;
use vstd::string::*;
use crate::attributes::{has_tsync_attribute, is_exported};
use crate::consts::{alias_text, const_text, render_alias, render_const};
use crate::declaration::{Declaration, DeclarationKind};
use crate::enums::{enum_text, render_enum};
use crate::structs::{render_struct, struct_text};

pub mod text;
pub mod comments;
pub mod typescript;
pub mod casing;
pub mod attributes;
pub mod declaration;
pub mod structs;
pub mod enums;
pub mod consts;

verus! {

/// The run-wide output settings.
#[derive(Clone, Copy, Debug)]
pub struct BuildSettings {
    /// The output is an ambient declaration file: declarations carry no `export`.
    pub uses_type_interface: bool,
    /// Enums without payload are written as `const enum`.
    pub enable_const_enums: bool,
}

/// The output of a run: the generated text and the inputs that gave none.
pub struct BuildState {
    pub types: String,
    pub unprocessed_files: Vec<String>,
}

impl Default for BuildSettings {
    fn default() -> (out: Self)
        ensures
            !out.uses_type_interface,
            !out.enable_const_enums,
    {
        BuildSettings { uses_type_interface: false, enable_const_enums: false }
    }
}

impl Default for BuildState {
    fn default() -> (out: Self)
        ensures
            out.types@ == Seq::<char>::empty(),
            out.unprocessed_files@ == Seq::<String>::empty(),
    {
        BuildState { types: String::new(), unprocessed_files: Vec::new() }
    }
}

impl BuildState {
    /// Appends the comment block of `comments` at the given indentation.
    pub fn write_comments(&mut self, comments: &Vec<String>, indentation_amount: i8)
        ensures
            final(self).types@ == old(self).types@ + comments::comment_block(
                text::lines_of(comments@),
                indentation_amount as int,
            ),
            final(self).unprocessed_files == old(self).unprocessed_files,
    {
        let block = comments::render_comments(comments, indentation_amount);
        self.types.append(block.as_str());
    }
}

/// The first line of every generated file.
pub open spec fn marker_line() -> Seq<char> {
    "/* This file is generated and managed by tsync */\n"@
}

/// The first line of a generated file, without what surrounds it.
pub open spec fn marker_text() -> Seq<char> {
    "/* This file is generated and managed by tsync */"@
}

/// Whether `text` ends in `suffix`.
pub open spec fn is_suffix(text: Seq<char>, suffix: Seq<char>) -> bool {
    suffix.len() <= text.len() && text.subrange(text.len() - suffix.len(), text.len() as int)
        == suffix
}

/// Whether a character is an ASCII letter.
pub open spec fn is_ascii_letter(c: char) -> bool {
    ('a' <= c && c <= 'z') || ('A' <= c && c <= 'Z')
}

/// Whether two characters are the same, the case of ASCII letters aside.
pub open spec fn same_char_ignoring_ascii_case(a: char, b: char) -> bool {
    a == b || (is_ascii_letter(a) && is_ascii_letter(b) && (a as int - b as int == 32 || b as int
        - a as int == 32))
}

/// Whether two texts are the same, the case of ASCII letters aside.
pub open spec fn same_ignoring_ascii_case(a: Seq<char>, b: Seq<char>) -> bool {
    a.len() == b.len() && forall|i: int|
        0 <= i < a.len() ==> same_char_ignoring_ascii_case(#[trigger] a[i], b[i])
}

/// What `str::trim` leaves of a text.
pub uninterp spec fn trimmed_text(text: Seq<char>) -> Seq<char>;

/// Calls `str::ends_with` with a string as the pattern: whether the text
/// ends in the suffix.
#[verifier::external_body]
fn ends_with(text: &str, suffix: &str) -> (out: bool)
    ensures
        out == is_suffix(text@, suffix@),
{
    text.ends_with(suffix)
}

/// Calls `str::trim`, which removes the white space at both ends. The result
/// depends on the text alone; it is named, not described.
#[verifier::external_body]
fn trim(text: &str) -> (out: String)
    ensures
        out@ == trimmed_text(text@),
{
    text.trim().to_string()
}

/// Calls `str::eq_ignore_ascii_case`: whether the two texts are equal once
/// the ASCII letters of both are brought to one case.
#[verifier::external_body]
fn eq_ignore_ascii_case(a: &str, b: &str) -> (out: bool)
    ensures
        out == same_ignoring_ascii_case(a@, b@),
{
    a.eq_ignore_ascii_case(b)
}

/// The text of a declaration, by its kind.
pub open spec fn declaration_text(d: Declaration, settings: BuildSettings) -> Seq<char> {
    match d.kind {
        DeclarationKind::Const { ty, value } => const_text(
            d.name@,
            d.attrs@,
            ty,
            value@,
            settings.uses_type_interface,
        ),
        DeclarationKind::Struct { fields } => struct_text(
            d.name@,
            d.generics@,
            d.attrs@,
            fields@,
            settings.uses_type_interface,
        ),
        DeclarationKind::Enum { variants } => enum_text(
            d.name@,
            d.generics@,
            d.attrs@,
            variants@,
            settings,
        ),
        DeclarationKind::TypeAlias { target } => alias_text(
            d.name@,
            d.generics@,
            d.attrs@,
            target,
            settings.uses_type_interface,
        ),
    }
}

/// What a declaration adds to the output: its text where it carries the
/// export marker, nothing otherwise.
pub open spec fn exported_text(d: Declaration, settings: BuildSettings) -> Seq<char> {
    if is_exported(d.attrs@) {
        declaration_text(d, settings)
    } else {
        Seq::empty()
    }
}

/// What a list of declarations adds to the output: what each adds, in order.
pub open spec fn declarations_text(items: Seq<Declaration>, settings: BuildSettings) -> Seq<char>
    decreases items.len(),
{
    if items.len() == 0 {
        Seq::empty()
    } else {
        declarations_text(items.drop_last(), settings) + exported_text(items.last(), settings)
    }
}

/// The whole output of a run: the marker line, then the declarations.
pub open spec fn translation_text(items: Seq<Declaration>, settings: BuildSettings) -> Seq<char> {
    marker_line() + declarations_text(items, settings)
}

impl Declaration {
    /// Appends the text of the declaration to the output.
    pub fn convert_to_ts(&self, state: &mut BuildState, config: &BuildSettings)
        ensures
            final(state).types@ == old(state).types@ + declaration_text(*self, *config),
            final(state).unprocessed_files == old(state).unprocessed_files,
    {
        let text = match &self.kind {
            DeclarationKind::Const { ty, value } => render_const(
                &self.name,
                &self.attrs,
                ty,
                value,
                config.uses_type_interface,
            ),
            DeclarationKind::Struct { fields } => render_struct(
                &self.name,
                &self.generics,
                &self.attrs,
                fields,
                config,
            ),
            DeclarationKind::Enum { variants } => render_enum(
                &self.name,
                &self.generics,
                &self.attrs,
                variants,
                config,
            ),
            DeclarationKind::TypeAlias { target } => render_alias(
                &self.name,
                &self.generics,
                &self.attrs,
                target,
                config.uses_type_interface,
            ),
        };
        state.types.append(text.as_str());
    }
}

/// Appends the text of a declaration where it carries the export marker.
pub fn process_rust_item(item: &Declaration, state: &mut BuildState, config: &BuildSettings)
    ensures
        final(state).types@ == old(state).types@ + exported_text(*item, *config),
        final(state).unprocessed_files == old(state).unprocessed_files,
{
    if has_tsync_attribute(&item.attrs) {
        item.convert_to_ts(state, config);
    } else {
        proof {
            assert(state.types@ =~= old(state).types@ + exported_text(*item, *config));
        }
    }
}

/// Appends what the declarations of one source file add, in their order.
pub fn process_rust_file(items: &Vec<Declaration>, state: &mut BuildState, config: &BuildSettings)
    ensures
        final(state).types@ == old(state).types@ + declarations_text(items@, *config),
        final(state).unprocessed_files == old(state).unprocessed_files,
{
    let mut i: usize = 0;
    proof {
        assert(state.types@ =~= old(state).types@ + declarations_text(items@.take(0), *config));
    }
    while i < items.len()
        invariant
            i <= items.len(),
            state.types@ == old(state).types@ + declarations_text(items@.take(i as int), *config),
            state.unprocessed_files == old(state).unprocessed_files,
        decreases items.len() - i,
    {
        proof {
            assert(items@.take(i + 1).drop_last() =~= items@.take(i as int));
        }
        process_rust_item(&items[i], state, config);
        i = i + 1;
        proof {
            assert(state.types@ =~= old(state).types@ + declarations_text(
                items@.take(i as int),
                *config,
            ));
        }
    }
    proof {
        assert(items@.take(items.len() as int) =~= items@);
    }
}

/// Records a source file that gave no declarations: one that could not be
/// read or parsed.
pub fn record_unprocessed(state: &mut BuildState, path: String)
    ensures
        final(state).types == old(state).types,
        final(state).unprocessed_files@ == old(state).unprocessed_files@.push(path),
{
    state.unprocessed_files.push(path);
}

/// The state at the start of a run: the marker line and nothing else.
pub fn start_output() -> (out: BuildState)
    ensures
        out.types@ == marker_line(),
        out.unprocessed_files@.len() == 0,
{
    let mut out = BuildState::default();
    out.types.append("/* This file is generated and managed by tsync */\n");
    proof {
        assert(out.types@ =~= marker_line());
    }
    out
}

/// Translates the declarations: the marker line, then the text of each
/// exported declaration, in the order in which they stand.
pub fn translate(declarations: &Vec<Declaration>, settings: &BuildSettings) -> (out: BuildState)
    ensures
        out.types@ == translation_text(declarations@, *settings),
        out.unprocessed_files@.len() == 0,
{
    let mut out = start_output();
    process_rust_file(declarations, &mut out, settings);
    out
}

/// The settings of a run that writes to the named output. A name that ends
/// in `.d.ts` is an ambient declaration file, and so is an output whose name
/// is no text.
pub fn output_settings(output_name: Option<&str>, enable_const_enums: bool) -> (out: BuildSettings)
    ensures
        out.enable_const_enums == enable_const_enums,
        out.uses_type_interface == match output_name {
            Some(name) => is_suffix(name@, ".d.ts"@),
            None => true,
        },
{
    let uses_type_interface = match output_name {
        Some(name) => ends_with(name, ".d.ts"),
        None => true,
    };
    BuildSettings { uses_type_interface, enable_const_enums }
}

/// Whether a file with the given extension is a source file: whether the
/// extension is `rs`, in either case.
pub fn check_extension(extension: &str) -> (out: bool)
    ensures
        out == same_ignoring_ascii_case(extension@, "rs"@),
{
    eq_ignore_ascii_case(extension, "rs")
}

/// Whether a line is the marker.
pub fn is_marker(line: &str) -> (out: bool)
    ensures
        out == (line@ == marker_text()),
{
    let line = String::from_str(line);
    text::same_text(&line, "/* This file is generated and managed by tsync */")
}

/// Whether a file with the given first line may be overwritten: whether that
/// line, white space at its ends aside, is the marker.
pub fn is_managed_output(first_line: &str) -> (out: bool)
    ensures
        out == (trimmed_text(first_line@) == marker_text()),
{
    let line = trim(first_line);
    is_marker(line.as_str())
}

/// The order of the declarations is the order of the output: what two lists
/// add one after the other is what the first adds, then what the second adds.
pub proof fn lemma_declaration_order_preserved(
    first: Seq<Declaration>,
    second: Seq<Declaration>,
    settings: BuildSettings,
)
    ensures
        declarations_text(first + second, settings) == declarations_text(first, settings)
            + declarations_text(second, settings),
    decreases second.len(),
{
    if second.len() == 0 {
        assert(first + second =~= first);
        assert(declarations_text(first, settings) + declarations_text(second, settings)
            =~= declarations_text(first, settings));
    } else {
        lemma_declaration_order_preserved(first, second.drop_last(), settings);
        assert((first + second).drop_last() =~= first + second.drop_last());
        assert((first + second).last() == second.last());
        assert(declarations_text(first + second, settings) =~= declarations_text(first, settings)
            + declarations_text(second, settings));
    }
}

/// Every declaration begins and ends with a line break, so that exactly one
/// blank line stands between it and the declaration before it.
pub proof fn lemma_declaration_between_line_breaks(d: Declaration, settings: BuildSettings)
    ensures
        declaration_text(d, settings).len() >= 2,
        declaration_text(d, settings).first() == '\n',
        declaration_text(d, settings).last() == '\n',
{
    reveal_strlit("\n");
    reveal_strlit(";\n");
    reveal_strlit("}\n");
}

/// Translating the same declarations under the same settings gives the same
/// text, whenever it is done.
pub proof fn lemma_translation_repeatable(
    first: Seq<Declaration>,
    second: Seq<Declaration>,
    settings: BuildSettings,
)
    requires
        first == second,
    ensures
        translation_text(first, settings) == translation_text(second, settings),
{
}

} // verus!
