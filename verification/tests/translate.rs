use tsync::attributes::{
    get_attribute_arg, get_casing, get_comments, has_attribute, has_flatten, has_tsync_attribute,
    parse_serde_case, Annotation,
};
use tsync::casing::{cased_name, CasingDirective};
use tsync::comments::render_comments;
use tsync::consts::{render_alias, render_const};
use tsync::declaration::{
    extract_struct_generics, Declaration, DeclarationKind, Field, Variant, VariantPayload,
};
use tsync::enums::{render_enum, render_label, render_labelled_member, MemberStyle};
use tsync::structs::{get_intersections, process_fields, render_field_line, render_struct};
use tsync::text::build_indentation;
use tsync::typescript::{convert_type, primitive_named, Primitive, TypeExpression};
use tsync::{
    check_extension, is_managed_output, is_marker, output_settings, process_rust_file, process_rust_item, record_unprocessed,
    start_output, translate, BuildSettings, BuildState,
};

fn s(text: &str) -> String {
    text.to_string()
}

fn marker() -> Annotation {
    Annotation { owner: s("tsync"), key: s(""), value: None }
}

fn doc(text: &str) -> Annotation {
    Annotation { owner: s("doc"), key: s(""), value: Some(s(text)) }
}

fn serde(key: &str, value: Option<&str>) -> Annotation {
    Annotation { owner: s("serde"), key: s(key), value: value.map(s) }
}

fn ident(name: &str) -> TypeExpression {
    TypeExpression::Identifier(s(name))
}

fn text_type() -> TypeExpression {
    TypeExpression::Primitive(Primitive::Text)
}

fn number_type() -> TypeExpression {
    TypeExpression::Primitive(Primitive::Number)
}

fn list_of(inner: TypeExpression) -> TypeExpression {
    TypeExpression::OrderedCollection(Box::new(inner))
}

fn optional(inner: TypeExpression) -> TypeExpression {
    TypeExpression::Optional(Box::new(inner))
}

fn field(name: &str, ty: TypeExpression, attrs: Vec<Annotation>) -> Field {
    Field { name: s(name), ty, attrs }
}

fn exporting() -> BuildSettings {
    BuildSettings { uses_type_interface: false, enable_const_enums: false }
}

fn ambient() -> BuildSettings {
    BuildSettings { uses_type_interface: true, enable_const_enums: false }
}

fn book_fields() -> Vec<Field> {
    vec![
        field("name", text_type(), vec![doc("Name of the book.")]),
        field("chapters", list_of(ident("Chapter")), vec![doc("Chapters of the book.")]),
        field(
            "user_reviews",
            optional(list_of(text_type())),
            vec![doc("Reviews of the book"), doc("by users.")],
        ),
    ]
}

fn book() -> Declaration {
    let mut fields = book_fields();
    fields.push(field("book_type", ident("BookType"), vec![serde("flatten", None)]));
    Declaration {
        name: s("Book"),
        generics: vec![],
        attrs: vec![doc("Doc comments are preserved too!"), marker()],
        kind: DeclarationKind::Struct { fields },
    }
}

fn chapter() -> Declaration {
    Declaration {
        name: s("Chapter"),
        generics: vec![],
        attrs: vec![
            doc("Multiple line comments"),
            doc("are formatted on"),
            doc("separate lines"),
            marker(),
        ],
        kind: DeclarationKind::Struct {
            fields: vec![
                field("title", text_type(), vec![]),
                field("pages", number_type(), vec![]),
            ],
        },
    }
}

fn book_type(attrs: Vec<Annotation>) -> Declaration {
    Declaration {
        name: s("BookType"),
        generics: vec![],
        attrs,
        kind: DeclarationKind::Enum {
            variants: vec![
                Variant {
                    name: s("Fiction"),
                    payload: VariantPayload::Struct(vec![field("genre", text_type(), vec![])]),
                    attrs: vec![serde("rename", Some("fiction"))],
                },
                Variant {
                    name: s("NonFiction"),
                    payload: VariantPayload::Struct(vec![field("subject", text_type(), vec![])]),
                    attrs: vec![serde("rename", Some("non-fiction"))],
                },
            ],
        },
    }
}

fn unit_variant(name: &str) -> Variant {
    Variant { name: s(name), payload: VariantPayload::Unit, attrs: vec![] }
}

const MARKER: &str = "/* This file is generated and managed by tsync */";

const BOOK_TEXT: &str = "\n/** Doc comments are preserved too! */\nexport type Book = BookType & {\n  /** Name of the book. */\n  name: string;\n  /** Chapters of the book. */\n  chapters: Chapter[];\n  /**\n   * Reviews of the book\n   * by users.\n   */\n  user_reviews?: string[];\n}\n";

const CHAPTER_TEXT: &str = "\n/**\n * Multiple line comments\n * are formatted on\n * separate lines\n */\nexport interface Chapter {\n  title: string;\n  pages: number;\n}\n";

const BOOK_TYPE_TEXT: &str = "\nexport type BookType =\n  | {\n      type: \"fiction\";\n      genre: string;\n    }\n  | {\n      type: \"non-fiction\";\n      subject: string;\n    };\n";

#[test]
fn indentation_is_spaces() {
    assert_eq!(build_indentation(0), "");
    assert_eq!(build_indentation(-3), "");
    assert_eq!(build_indentation(2), "  ");
    assert_eq!(build_indentation(6), "      ");
}

#[test]
fn no_comment_gives_no_block() {
    assert_eq!(render_comments(&vec![], 0), "");
    assert_eq!(render_comments(&vec![], 4), "");
}

#[test]
fn one_comment_gives_a_single_line_block() {
    assert_eq!(render_comments(&vec![s("Name of the book.")], 2), "  /** Name of the book. */\n");
}

#[test]
fn two_comments_give_two_continuation_lines() {
    let lines = vec![s("Reviews of the book"), s("by users.")];
    assert_eq!(
        render_comments(&lines, 2),
        "  /**\n   * Reviews of the book\n   * by users.\n   */\n"
    );
    assert_eq!(render_comments(&lines, 0), "/**\n * Reviews of the book\n * by users.\n */\n");
}

#[test]
fn write_comments_appends_to_the_buffer() {
    let mut state = BuildState::default();
    state.types.push_str("before\n");
    state.write_comments(&vec![s("one")], 0);
    state.write_comments(&vec![], 0);
    state.write_comments(&vec![s("a"), s("b"), s("c")], 1);
    assert_eq!(state.types, "before\n/** one */\n /**\n  * a\n  * b\n  * c\n  */\n");
    assert!(state.unprocessed_files.is_empty());
}

#[test]
fn primitives_map_to_their_names() {
    assert_eq!(convert_type(&number_type()).ts_type, "number");
    assert_eq!(convert_type(&text_type()).ts_type, "string");
    assert_eq!(convert_type(&TypeExpression::Primitive(Primitive::Boolean)).ts_type, "boolean");
    assert_eq!(convert_type(&TypeExpression::Primitive(Primitive::Unit)).ts_type, "null");
    assert!(!convert_type(&number_type()).is_optional);
}

#[test]
fn collections_map_to_their_conventions() {
    assert_eq!(convert_type(&list_of(number_type())).ts_type, "number[]");
    assert_eq!(
        convert_type(&TypeExpression::SetOf(Box::new(text_type()))).ts_type,
        "Set<string>"
    );
    assert_eq!(
        convert_type(&TypeExpression::MapOf(Box::new(text_type()), Box::new(ident("Book"))))
            .ts_type,
        "Record<string, Book>"
    );
    assert_eq!(
        convert_type(&TypeExpression::Tuple(vec![text_type(), number_type(), ident("T")])).ts_type,
        "[string, number, T]"
    );
    assert_eq!(convert_type(&TypeExpression::Tuple(vec![])).ts_type, "[]");
    assert_eq!(convert_type(&TypeExpression::Tuple(vec![ident("A")])).ts_type, "[A]");
}

#[test]
fn generic_maps_each_argument() {
    let e = TypeExpression::Generic(
        s("PaginationResult"),
        vec![list_of(ident("Book")), optional(number_type())],
    );
    let mapped = convert_type(&e);
    assert_eq!(mapped.ts_type, "PaginationResult<Book[], number>");
    assert!(!mapped.is_optional);
}

#[test]
fn unknown_names_pass_through() {
    assert_eq!(convert_type(&ident("Chapter")).ts_type, "Chapter");
    let opaque = TypeExpression::Opaque(s("&'a dyn Fn(u8) -> u8"));
    let mapped = convert_type(&opaque);
    assert_eq!(mapped.ts_type, "&'a dyn Fn(u8) -> u8");
    assert!(!mapped.is_optional);
}

#[test]
fn optional_maps_as_the_wrapped_type() {
    let inner = convert_type(&list_of(text_type()));
    let outer = convert_type(&optional(list_of(text_type())));
    assert_eq!(outer.ts_type, inner.ts_type);
    assert_eq!(outer.ts_type, "string[]");
    assert!(outer.is_optional);
    assert!(!inner.is_optional);
    let twice = convert_type(&optional(optional(number_type())));
    assert_eq!(twice.ts_type, "number");
    assert!(twice.is_optional);
    let inside = convert_type(&list_of(optional(number_type())));
    assert_eq!(inside.ts_type, "number[]");
    assert!(!inside.is_optional);
}

#[test]
fn attributes_are_found_by_owner_and_key() {
    let attrs = vec![
        doc("first"),
        serde("rename_all", Some("camelCase")),
        serde("tag", Some("type")),
        serde("tag", Some("kind")),
        serde("flatten", None),
        marker(),
        doc("second"),
    ];
    assert!(has_attribute("tsync", &attrs));
    assert!(has_attribute("serde", &attrs));
    assert!(!has_attribute("derive", &attrs));
    assert!(has_tsync_attribute(&attrs));
    assert!(!has_tsync_attribute(&vec![doc("tsync")]));
    assert_eq!(get_attribute_arg("serde", "tag", &attrs), Some(s("type")));
    assert_eq!(get_attribute_arg("serde", "flatten", &attrs), Some(s("")));
    assert_eq!(get_attribute_arg("serde", "rename", &attrs), None);
    assert_eq!(get_attribute_arg("tsync", "tag", &attrs), None);
    assert!(has_flatten(&attrs));
    assert!(!has_flatten(&vec![marker()]));
    assert_eq!(get_comments(&attrs), vec![s("first"), s("second")]);
    assert_eq!(get_casing(&attrs), Some(CasingDirective::CamelCase));
    assert_eq!(get_casing(&vec![marker()]), None);
}

#[test]
fn casing_values_are_recognised() {
    assert_eq!(parse_serde_case(None), None);
    assert_eq!(parse_serde_case(Some(s("lowercase"))), Some(CasingDirective::LowerCase));
    assert_eq!(parse_serde_case(Some(s("UPPERCASE"))), Some(CasingDirective::UpperCase));
    assert_eq!(parse_serde_case(Some(s("PascalCase"))), Some(CasingDirective::PascalCase));
    assert_eq!(parse_serde_case(Some(s("camelCase"))), Some(CasingDirective::CamelCase));
    assert_eq!(parse_serde_case(Some(s("snake_case"))), Some(CasingDirective::SnakeCase));
    assert_eq!(
        parse_serde_case(Some(s("SCREAMING_SNAKE_CASE"))),
        Some(CasingDirective::ScreamingSnakeCase)
    );
    assert_eq!(parse_serde_case(Some(s("kebab-case"))), Some(CasingDirective::KebabCase));
    assert_eq!(
        parse_serde_case(Some(s("SCREAMING-KEBAB-CASE"))),
        Some(CasingDirective::ScreamingKebabCase)
    );
}

#[test]
fn unknown_casing_value_is_no_policy() {
    assert_eq!(parse_serde_case(Some(s("CamelCase"))), None);
    assert_eq!(parse_serde_case(Some(s(""))), None);
    let d = Declaration {
        name: s("Plain"),
        generics: vec![],
        attrs: vec![marker(), serde("rename_all", Some("sPoNgE"))],
        kind: DeclarationKind::Struct { fields: vec![field("user_id", number_type(), vec![])] },
    };
    assert_eq!(
        translate(&vec![d], &exporting()).types,
        format!("{}\n\nexport interface Plain {{\n  user_id: number;\n}}\n", MARKER)
    );
}

#[test]
fn names_are_cased_by_the_policy() {
    let name = s("user_reviews");
    assert_eq!(cased_name(&name, None), "user_reviews");
    assert_eq!(cased_name(&name, Some(CasingDirective::CamelCase)), "userReviews");
    assert_eq!(cased_name(&name, Some(CasingDirective::PascalCase)), "UserReviews");
    assert_eq!(cased_name(&name, Some(CasingDirective::SnakeCase)), "user_reviews");
    assert_eq!(cased_name(&name, Some(CasingDirective::ScreamingSnakeCase)), "USER_REVIEWS");
    assert_eq!(cased_name(&name, Some(CasingDirective::KebabCase)), "user-reviews");
    assert_eq!(cased_name(&name, Some(CasingDirective::ScreamingKebabCase)), "USER-REVIEWS");
    assert_eq!(cased_name(&s("NonFiction"), Some(CasingDirective::CamelCase)), "nonFiction");
}

#[test]
fn generics_are_bracketed() {
    assert_eq!(extract_struct_generics(&vec![]), "");
    assert_eq!(extract_struct_generics(&vec![s("T")]), "<T>");
    assert_eq!(extract_struct_generics(&vec![s("K"), s("V"), s("E")]), "<K, V, E>");
}

#[test]
fn flattened_fields_become_an_intersection() {
    let fields = vec![
        field("x", ident("X"), vec![serde("flatten", None)]),
        field("y", text_type(), vec![]),
    ];
    assert_eq!(get_intersections(&fields), Some(s("X")));
    let text = render_struct(&s("Name"), &vec![], &vec![], &fields, &exporting());
    assert_eq!(text, "\nexport type Name = X & {\n  y: string;\n}\n");
}

#[test]
fn several_flattened_fields_are_joined() {
    let fields = vec![
        field("a", ident("A"), vec![serde("flatten", None)]),
        field("n", number_type(), vec![]),
        field("b", optional(ident("B")), vec![serde("flatten", None)]),
        field("c", list_of(ident("C")), vec![serde("flatten", None)]),
    ];
    assert_eq!(get_intersections(&fields), Some(s("A & B & C[]")));
    assert_eq!(get_intersections(&book_fields()), None);
    assert_eq!(get_intersections(&vec![]), None);
    let text = render_struct(&s("All"), &vec![s("T")], &vec![], &fields, &ambient());
    assert_eq!(text, "\ntype All<T> = A & B & C[] & {\n  n: number;\n}\n");
}

#[test]
fn struct_without_plain_fields_has_an_empty_body() {
    let text = render_struct(&s("Empty"), &vec![], &vec![], &vec![], &exporting());
    assert_eq!(text, "\nexport interface Empty {\n}\n");
    let only_flat = vec![field("inner", ident("Inner"), vec![serde("flatten", None)])];
    let text = render_struct(&s("Wrap"), &vec![], &vec![], &only_flat, &exporting());
    assert_eq!(text, "\nexport type Wrap = Inner & {\n}\n");
}

#[test]
fn process_fields_skips_flattened_fields() {
    let mut state = BuildState::default();
    let mut fields = book_fields();
    fields.insert(1, field("book_type", ident("BookType"), vec![serde("flatten", None)]));
    process_fields(&fields, &mut state, 2, None);
    assert_eq!(
        state.types,
        "  /** Name of the book. */\n  name: string;\n  /** Chapters of the book. */\n  chapters: Chapter[];\n  /**\n   * Reviews of the book\n   * by users.\n   */\n  user_reviews?: string[];\n"
    );
}

#[test]
fn casing_changes_field_names_only() {
    let d = Declaration {
        name: s("book_camel"),
        generics: vec![],
        attrs: vec![marker(), serde("rename_all", Some("camelCase"))],
        kind: DeclarationKind::Struct {
            fields: vec![
                field("user_reviews", optional(list_of(ident("user_review"))), vec![]),
                field("total_items", number_type(), vec![]),
            ],
        },
    };
    assert_eq!(
        translate(&vec![d], &exporting()).types,
        format!(
            "{}\n\nexport interface book_camel {{\n  userReviews?: user_review[];\n  totalItems: number;\n}}\n",
            MARKER
        )
    );
}

#[test]
fn tagged_enum_is_a_union_of_objects() {
    let d = book_type(vec![marker(), serde("tag", Some("type"))]);
    let out = translate(&vec![d], &exporting());
    assert_eq!(out.types, format!("{}\n{}", MARKER, BOOK_TYPE_TEXT));
    assert_eq!(out.types.matches("  | {").count(), 2);
}

#[test]
fn tagged_enum_labels_follow_the_casing() {
    let variants = vec![
        unit_variant("NonFiction"),
        Variant {
            name: s("Fiction"),
            payload: VariantPayload::Unit,
            attrs: vec![serde("rename", Some("made-up"))],
        },
    ];
    let attrs = vec![serde("tag", Some("kind")), serde("rename_all", Some("snake_case"))];
    let text = render_enum(&s("Shelf"), &vec![], &attrs, &variants, &ambient());
    assert_eq!(
        text,
        "\ntype Shelf =\n  | {\n      kind: \"non_fiction\";\n    }\n  | {\n      kind: \"made-up\";\n    };\n"
    );
}

#[test]
fn untagged_enum_is_a_union_of_literals_and_tuples() {
    let variants = vec![
        unit_variant("Red"),
        Variant {
            name: s("Rgb"),
            payload: VariantPayload::Tuple(vec![number_type(), number_type(), number_type()]),
            attrs: vec![],
        },
        Variant {
            name: s("Named"),
            payload: VariantPayload::Struct(vec![field("name", text_type(), vec![])]),
            attrs: vec![],
        },
    ];
    let text = render_enum(&s("Colour"), &vec![s("T")], &vec![], &variants, &exporting());
    assert_eq!(
        text,
        "\nexport type Colour<T> =\n  | \"Red\"\n  | [number, number, number]\n  | {\n      name: string;\n    };\n"
    );
}

#[test]
fn enum_without_variants_is_never() {
    let text = render_enum(&s("Nothing"), &vec![], &vec![], &vec![], &exporting());
    assert_eq!(text, "\nexport type Nothing = never;\n");
}

#[test]
fn unit_enum_follows_the_const_enum_setting() {
    let variants = vec![unit_variant("North"), unit_variant("SouthEast")];
    let attrs = vec![doc("A direction."), serde("rename_all", Some("kebab-case"))];
    let on = BuildSettings { uses_type_interface: false, enable_const_enums: true };
    assert_eq!(
        render_enum(&s("Direction"), &vec![], &attrs, &variants, &on),
        "\n/** A direction. */\nexport const enum Direction {\n  North = \"north\",\n  SouthEast = \"south-east\",\n}\n"
    );
    assert_eq!(
        render_enum(&s("Direction"), &vec![], &attrs, &variants, &exporting()),
        "\n/** A direction. */\nexport type Direction =\n  | \"north\"\n  | \"south-east\";\n"
    );
}

#[test]
fn const_enum_setting_leaves_enums_with_payload_alone() {
    let on = BuildSettings { uses_type_interface: false, enable_const_enums: true };
    let d = book_type(vec![marker(), serde("tag", Some("type"))]);
    assert_eq!(translate(&vec![d], &on).types, format!("{}\n{}", MARKER, BOOK_TYPE_TEXT));
}

#[test]
fn const_is_a_binding_or_an_ambient_declaration() {
    let attrs = vec![doc("The answer.")];
    assert_eq!(
        render_const(&s("ANSWER"), &attrs, &number_type(), &s("42"), false),
        "\n/** The answer. */\nexport const ANSWER: number = 42;\n"
    );
    assert_eq!(
        render_const(&s("ANSWER"), &attrs, &number_type(), &s("42"), true),
        "\n/** The answer. */\ndeclare const ANSWER: number;\n"
    );
}

#[test]
fn alias_delegates_to_the_type_mapper() {
    let target = TypeExpression::MapOf(Box::new(text_type()), Box::new(list_of(ident("T"))));
    assert_eq!(
        render_alias(&s("Index"), &vec![s("T")], &vec![], &target, false),
        "\nexport type Index<T> = Record<string, T[]>;\n"
    );
    assert_eq!(
        render_alias(&s("Id"), &vec![], &vec![doc("An id.")], &number_type(), true),
        "\n/** An id. */\ntype Id = number;\n"
    );
}

#[test]
fn only_exported_declarations_are_translated() {
    let mut hidden = chapter();
    hidden.attrs = vec![doc("Not exported.")];
    let mut state = BuildState::default();
    process_rust_item(&hidden, &mut state, &exporting());
    assert_eq!(state.types, "");
    process_rust_item(&chapter(), &mut state, &exporting());
    assert_eq!(state.types, CHAPTER_TEXT);
}

#[test]
fn declaration_order_is_preserved() {
    let decls = vec![book(), chapter(), book_type(vec![marker(), serde("tag", Some("type"))])];
    let out = translate(&decls, &exporting());
    assert_eq!(out.types, format!("{}\n{}{}{}", MARKER, BOOK_TEXT, CHAPTER_TEXT, BOOK_TYPE_TEXT));
    assert!(out.unprocessed_files.is_empty());
    let book_at = out.types.find("type Book ").unwrap();
    let chapter_at = out.types.find("interface Chapter").unwrap();
    let type_at = out.types.find("type BookType").unwrap();
    assert!(book_at < chapter_at && chapter_at < type_at);
}

#[test]
fn files_are_appended_one_after_the_other() {
    let settings = exporting();
    let mut state = start_output();
    process_rust_file(&vec![book()], &mut state, &settings);
    process_rust_file(&vec![], &mut state, &settings);
    process_rust_file(&vec![chapter()], &mut state, &settings);
    assert_eq!(state.types, translate(&vec![book(), chapter()], &settings).types);
}

#[test]
fn translating_twice_gives_the_same_text() {
    let decls = vec![book(), chapter(), book_type(vec![marker(), serde("tag", Some("type"))])];
    let first = translate(&decls, &ambient());
    let second = translate(&decls, &ambient());
    assert_eq!(first.types, second.types);
    assert_eq!(first.types.as_bytes(), second.types.as_bytes());
}

#[test]
fn output_starts_with_the_marker_line() {
    let out = translate(&vec![], &exporting());
    assert_eq!(out.types, "/* This file is generated and managed by tsync */\n");
    assert_eq!(start_output().types, out.types);
}

#[test]
fn ambient_output_has_no_export_keyword() {
    let out = translate(&vec![chapter()], &ambient());
    assert_eq!(out.types, format!("{}\n{}", MARKER, CHAPTER_TEXT.replace("export ", "")));
}

#[test]
fn settings_follow_the_output_name() {
    assert!(output_settings(Some("types.d.ts"), false).uses_type_interface);
    assert!(!output_settings(Some("types.ts"), false).uses_type_interface);
    assert!(!output_settings(Some("d.ts"), false).uses_type_interface);
    assert!(!output_settings(Some(".d.ts.bak"), false).uses_type_interface);
    assert!(output_settings(None, false).uses_type_interface);
    assert!(output_settings(Some("a.ts"), true).enable_const_enums);
    assert!(!output_settings(Some("a.ts"), false).enable_const_enums);
    let plain = BuildSettings::default();
    assert!(!plain.uses_type_interface && !plain.enable_const_enums);
}

#[test]
fn only_a_marked_file_may_be_overwritten() {
    assert!(is_managed_output("/* This file is generated and managed by tsync */\n"));
    assert!(is_managed_output("  /* This file is generated and managed by tsync */ \r\n"));
    assert!(!is_managed_output("// written by hand\n"));
    assert!(!is_managed_output(""));
    assert!(!is_managed_output("/* This file is generated and managed by tsync */ export"));
}

#[test]
fn unprocessed_files_are_recorded_in_order() {
    let mut state = start_output();
    record_unprocessed(&mut state, s("src/broken.rs"));
    record_unprocessed(&mut state, s("src/missing.rs"));
    assert_eq!(state.unprocessed_files, vec![s("src/broken.rs"), s("src/missing.rs")]);
    assert_eq!(state.types, "/* This file is generated and managed by tsync */\n");
}

#[test]
fn extension_is_compared_without_case() {
    assert!(check_extension("rs"));
    assert!(check_extension("RS"));
    assert!(check_extension("Rs"));
    assert!(!check_extension("r"));
    assert!(!check_extension("rss"));
    assert!(!check_extension("ts"));
    assert!(!check_extension(""));
}

#[test]
fn names_are_classified() {
    let named = |name: &str, args: Vec<TypeExpression>| {
        convert_type(&TypeExpression::from_path(s(name), args))
    };
    assert_eq!(named("u32", vec![]).ts_type, "number");
    assert_eq!(named("f64", vec![]).ts_type, "number");
    assert_eq!(named("isize", vec![]).ts_type, "number");
    assert_eq!(named("bool", vec![]).ts_type, "boolean");
    assert_eq!(named("String", vec![]).ts_type, "string");
    assert_eq!(named("char", vec![]).ts_type, "string");
    assert_eq!(named("Chapter", vec![]).ts_type, "Chapter");
    assert_eq!(named("number", vec![]).ts_type, "number");
    assert_eq!(named("Vec", vec![ident("Chapter")]).ts_type, "Chapter[]");
    assert_eq!(named("HashSet", vec![text_type()]).ts_type, "Set<string>");
    assert_eq!(
        named("HashMap", vec![text_type(), number_type()]).ts_type,
        "Record<string, number>"
    );
    assert_eq!(
        named("BTreeMap", vec![ident("K"), ident("V")]).ts_type,
        "Record<K, V>"
    );
    assert_eq!(named("Box", vec![ident("T")]).ts_type, "Box<T>");
    assert_eq!(named("Vec", vec![ident("A"), ident("B")]).ts_type, "Vec<A, B>");
    assert_eq!(named("u8", vec![ident("A")]).ts_type, "u8<A>");
    let maybe = named("Option", vec![TypeExpression::from_path(s("Vec"), vec![text_type()])]);
    assert_eq!(maybe.ts_type, "string[]");
    assert!(maybe.is_optional);
    assert!(!named("Vec", vec![optional(text_type())]).is_optional);
}

#[test]
fn field_line_shows_the_given_name() {
    let f = field("user_reviews", optional(list_of(text_type())), vec![doc("Reviews.")]);
    assert_eq!(
        render_field_line(&f, "userReviews", 2),
        "  /** Reviews. */\n  userReviews?: string[];\n"
    );
    let g = field("pages", number_type(), vec![]);
    assert_eq!(render_field_line(&g, "PAGES", 6), "      PAGES: number;\n");
    assert_eq!(render_field_line(&g, "pages", 0), "pages: number;\n");
}

#[test]
fn member_shows_the_given_label() {
    let fiction = Variant {
        name: s("Fiction"),
        payload: VariantPayload::Struct(vec![field("genre", text_type(), vec![])]),
        attrs: vec![],
    };
    assert_eq!(
        render_labelled_member(&fiction, MemberStyle::Tagged, "type", "fiction"),
        "\n  | {\n      type: \"fiction\";\n      genre: string;\n    }"
    );
    assert_eq!(
        render_labelled_member(&fiction, MemberStyle::Plain, "type", "fiction"),
        "\n  | {\n      genre: string;\n    }"
    );
    let north = unit_variant("North");
    assert_eq!(render_labelled_member(&north, MemberStyle::Plain, "", "north"), "\n  | \"north\"");
    assert_eq!(
        render_labelled_member(&north, MemberStyle::Constant, "", "north"),
        "  North = \"north\",\n"
    );
    assert_eq!(
        render_labelled_member(&north, MemberStyle::Tagged, "kind", "N"),
        "\n  | {\n      kind: \"N\";\n    }"
    );
}

#[test]
fn label_is_the_rename_or_the_cased_name() {
    let plain = unit_variant("NonFiction");
    assert_eq!(render_label(&plain, None), "NonFiction");
    assert_eq!(render_label(&plain, Some(CasingDirective::SnakeCase)), "non_fiction");
    let renamed = Variant {
        name: s("NonFiction"),
        payload: VariantPayload::Unit,
        attrs: vec![serde("rename", Some("non-fiction"))],
    };
    assert_eq!(render_label(&renamed, Some(CasingDirective::SnakeCase)), "non-fiction");
}

#[test]
fn variant_fields_follow_the_casing_of_the_variant() {
    let variants = vec![Variant {
        name: s("Fiction"),
        payload: VariantPayload::Struct(vec![field("main_genre", text_type(), vec![])]),
        attrs: vec![serde("rename_all", Some("camelCase"))],
    }];
    let attrs = vec![serde("tag", Some("type")), serde("rename_all", Some("UPPERCASE"))];
    assert_eq!(
        render_enum(&s("BookType"), &vec![], &attrs, &variants, &exporting()),
        "\nexport type BookType =\n  | {\n      type: \"FICTION\";\n      mainGenre: string;\n    };\n"
    );
}

#[test]
fn marker_is_compared_exactly() {
    assert!(is_marker("/* This file is generated and managed by tsync */"));
    assert!(!is_marker("/* This file is generated and managed by tsync */\n"));
    assert!(!is_marker(" /* This file is generated and managed by tsync */"));
    assert!(!is_marker(""));
}

#[test]
fn primitive_names_are_recognised() {
    for name in [
        "i8", "i16", "i32", "i64", "i128", "isize", "u8", "u16", "u32", "u64", "u128", "usize",
        "f32", "f64",
    ] {
        assert!(matches!(primitive_named(&s(name)), Some(Primitive::Number)));
    }
    for name in ["String", "str", "char"] {
        assert!(matches!(primitive_named(&s(name)), Some(Primitive::Text)));
    }
    assert!(matches!(primitive_named(&s("bool")), Some(Primitive::Boolean)));
    assert!(primitive_named(&s("Bool")).is_none());
    assert!(primitive_named(&s("number")).is_none());
    assert!(primitive_named(&s("")).is_none());
}

#[test]
fn variant_comments_stand_above_the_member() {
    let variants = vec![
        Variant { name: s("North"), payload: VariantPayload::Unit, attrs: vec![doc("Up.")] },
        Variant {
            name: s("South"),
            payload: VariantPayload::Unit,
            attrs: vec![doc("Down,"), doc("mostly.")],
        },
    ];
    assert_eq!(
        render_enum(&s("Way"), &vec![], &vec![], &variants, &exporting()),
        "\nexport type Way =\n  /** Up. */\n  | \"North\"\n  /**\n   * Down,\n   * mostly.\n   */\n  | \"South\";\n"
    );
    let on = BuildSettings { uses_type_interface: true, enable_const_enums: true };
    assert_eq!(
        render_enum(&s("Way"), &vec![], &vec![], &variants, &on),
        "\nconst enum Way {\n  /** Up. */\n  North = \"North\",\n  /**\n   * Down,\n   * mostly.\n   */\n  South = \"South\",\n}\n"
    );
    assert_eq!(
        render_labelled_member(&variants[0], MemberStyle::Tagged, "t", "n"),
        "\n  /** Up. */\n  | {\n      t: \"n\";\n    }"
    );
}
