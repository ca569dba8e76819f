use filterable::annotations::{ignore, renamed_field};
use filterable::derive::{Filterable, GenContext};
use filterable::errors::{Error, TypeMismatchError};
use filterable::execution_context::ExecutionContext;
use filterable::instance::{FieldValue, Instance};
use filterable::reflect::{
    build, describe, describe_field, iter_members_filterable, iter_members_has_fields, join_path,
    make_filterable, make_has_fields, materialize, FieldDescriptor,
};
use filterable::resolver::{path_is_option, path_is_vec, resolve};
use filterable::scan::{hex_digit, is_readable, step_over, Mode, Scan, MAX_DEPTH};
use filterable::scheme::Scheme;
use filterable::syntax::{
    Attribute, DeriveInput, Field, GenericArgument, Lit, Meta, Path, PathArguments, PathSegment,
    TypeExpr,
};
use filterable::types::{IpAddr, LhsValue, Type};

fn attr(args: &str) -> Attribute {
    Attribute::parse(args)
}

fn segment(ident: &str, arguments: PathArguments) -> PathSegment {
    PathSegment { ident: ident.to_string(), arguments }
}

fn path(idents: &[&str]) -> Path {
    Path {
        leading_colon: false,
        segments: idents.iter().map(|i| segment(i, PathArguments::Empty)).collect(),
    }
}

fn named(ident: &str) -> TypeExpr {
    TypeExpr::Path { qself: false, path: path(&[ident]) }
}

fn generic(ident: &str, argument: TypeExpr) -> TypeExpr {
    let arguments = PathArguments::AngleBracketed(vec![GenericArgument::Type(argument)]);
    TypeExpr::Path {
        qself: false,
        path: Path { leading_colon: false, segments: vec![segment(ident, arguments)] },
    }
}

fn pairs_type() -> TypeExpr {
    generic("Vec", TypeExpr::Tuple(vec![named("String"), named("String")]))
}

fn field(attrs: Vec<Attribute>, ident: &str, ty: TypeExpr) -> Field {
    Field { attrs, ident: ident.to_string(), ty }
}

fn test1() -> DeriveInput {
    DeriveInput {
        attrs: vec![attr("name=\"empty\"")],
        ident: "Test1".to_string(),
        fields: vec![
            field(vec![attr("name=\"test.a\"")], "a", named("String")),
            field(vec![], "b", named("IpAddr")),
            field(vec![], "c", named("usize")),
            field(vec![], "d", generic("Option", named("String"))),
            field(vec![], "e", pairs_type()),
            field(vec![attr("ignore=\"true\"")], "f", named("SystemTime")),
        ],
    }
}

fn test1_values() -> Vec<FieldValue> {
    vec![
        FieldValue::Text(String::from("A")),
        FieldValue::Ip(IpAddr::V4(1, 1, 1, 1)),
        FieldValue::Usize(1234),
        FieldValue::Optional(Some(Box::new(FieldValue::Text("D".to_string())))),
        FieldValue::Pairs(vec![("k".to_ascii_lowercase(), "v".to_ascii_lowercase())]),
        FieldValue::Optional(None),
    ]
}

fn entry(path: &str, ty: Type) -> (String, Type) {
    (path.to_string(), ty)
}

#[test]
fn handle_renamed_fields() {
    let input = test1();
    let scheme = make_has_fields(&input).unwrap();
    let scheme = Scheme::try_from_iter(scheme).unwrap();
    let e = Instance { definition: &input, values: test1_values() };
    e.filter_context(&scheme).unwrap();
}

#[test]
fn scheme_of_the_renamed_structure() {
    let fields = make_has_fields(&test1()).unwrap();
    assert_eq!(
        fields,
        vec![
            entry("empty.test.a", Type::Bytes),
            entry("empty.b", Type::Ip),
            entry("empty.c", Type::Int),
            entry("empty.d", Type::Bytes),
            entry("empty.e", Type::Bytes),
        ]
    );
}

#[test]
fn context_of_the_renamed_structure() {
    let input = test1();
    let scheme = Scheme::try_from_iter(make_has_fields(&input).unwrap()).unwrap();
    let ctx = make_filterable(&input, &test1_values(), &scheme).unwrap();
    assert_eq!(ctx.get_field_value("empty.test.a"), Some(&LhsValue::Bytes("A".to_string())));
    assert_eq!(ctx.get_field_value("empty.b"), Some(&LhsValue::Ip(IpAddr::V4(1, 1, 1, 1))));
    assert_eq!(ctx.get_field_value("empty.c"), Some(&LhsValue::Int(1234)));
    assert_eq!(ctx.get_field_value("empty.d"), Some(&LhsValue::Bytes("D".to_string())));
    assert_eq!(ctx.get_field_value("empty.e"), Some(&LhsValue::Bytes("k:v\n".to_string())));
    assert_eq!(ctx.get_field_value("empty.f"), None);
    assert_eq!(ctx.get_field_value("f"), None);
    assert_eq!(scheme.get_type("empty.f"), None);
}

#[test]
fn namespace_and_rename_compose() {
    assert_eq!(join_path(&Some("empty".to_string()), "test.a"), "empty.test.a");
    assert_eq!(join_path(&None, "test.a"), "test.a");
    assert_eq!(join_path(&Some("a".to_string()), "b"), "a.b");
    let d = describe_field(
        &field(vec![attr("name = \"test.a\"")], "a", named("String")),
        &Some("empty".to_string()),
    )
    .unwrap();
    assert_eq!(d.path, "empty.test.a");
    assert_eq!(d.ty, Some(Type::Bytes));
    assert!(!d.ignore());
}

#[test]
fn annotations_are_parsed_by_their_shape() {
    match attr("name = \"empty\"").meta {
        Some(Meta::NameValue(path, Lit::Str(text))) => {
            assert_eq!(path, vec!["name".to_string()]);
            assert_eq!(text, "empty");
        }
        other => panic!("{:?}", other),
    }
    match attr("a::b = \"x\\ny \\\"z\\\"\"").meta {
        Some(Meta::NameValue(path, Lit::Str(text))) => {
            assert_eq!(path, vec!["a".to_string(), "b".to_string()]);
            assert_eq!(text, "x\ny \"z\"");
        }
        other => panic!("{:?}", other),
    }
    assert!(matches!(attr("ignore = true").meta, Some(Meta::NameValue(_, Lit::Other))));
    assert!(matches!(attr("ignore").meta, Some(Meta::Path)));
    assert!(matches!(attr("rename(a, b)").meta, Some(Meta::List)));
    assert!(matches!(attr("rename(a = \"x\", b(c))").meta, Some(Meta::List)));
    assert!(attr("").meta.is_none());
    assert!(attr("= \"x\"").meta.is_none());
    assert!(attr("name = \"x\" y").meta.is_none());
    assert!(attr("name = \"unterminated").meta.is_none());
    assert!(attr("name = (a)").meta.is_none());
}

#[test]
fn integers_and_escapes_are_read() {
    assert!(matches!(attr("ignore = 1").meta, Some(Meta::NameValue(_, Lit::Other))));
    assert!(matches!(attr("name = 5").meta, Some(Meta::NameValue(_, Lit::Other))));
    assert!(matches!(
        attr("n = 340282366920938463463374607431768211456").meta,
        Some(Meta::NameValue(_, Lit::Other))
    ));
    assert!(matches!(attr("a(1, \"x\")").meta, Some(Meta::List)));
    assert!(attr("5 = \"x\"").meta.is_none());
    match attr("name = \"\\x41\\u{e9}\\u{10FFFF}\\0\\t\"").meta {
        Some(Meta::NameValue(_, Lit::Str(text))) => {
            assert_eq!(text, "A\u{e9}\u{10ffff}\0\t");
        }
        other => panic!("{:?}", other),
    }
    match attr("name = \"\\x7f\\x00\\u{0}\\u{D7FF}\\u{e000}\"").meta {
        Some(Meta::NameValue(_, Lit::Str(text))) => {
            assert_eq!(text, "\x7f\0\0\u{d7ff}\u{e000}");
        }
        other => panic!("{:?}", other),
    }
}

#[test]
fn texts_with_other_literals_are_not_read() {
    assert!(!is_readable("name = c\"x\""));
    assert!(!is_readable("name = cr\"x\""));
    assert!(!is_readable("name = b\"x\""));
    assert!(!is_readable("name = r\"x\""));
    assert!(!is_readable("a(c\"x\")"));
    assert!(!is_readable("(/*ERROR*/)"));
    assert!(!is_readable("name = 5u8"));
    assert!(!is_readable("name = 0x1f"));
    assert!(!is_readable("name = 1_000"));
    assert!(!is_readable("name = 1.5"));
    assert!(!is_readable("name = 1e5"));
    assert!(!is_readable("name = -5"));
    assert!(!is_readable("name = 5\"x\""));
    assert!(!is_readable("name = 'a'"));
    assert!(!is_readable("name = \"x\"suffix"));
    assert!(!is_readable("name = \"x\"5"));
    assert!(!is_readable("name = \"\\x80\""));
    assert!(!is_readable("name = \"\\xg0\""));
    assert!(!is_readable("name = \"\\x4\""));
    assert!(!is_readable("name = \"\\u41\""));
    assert!(!is_readable("name = \"\\u{}\""));
    assert!(!is_readable("name = \"\\u{d800}\""));
    assert!(!is_readable("name = \"\\u{dfff}\""));
    assert!(!is_readable("name = \"\\u{110000}\""));
    assert!(!is_readable("name = \"\\u{0000041}\""));
    assert!(!is_readable("name = \"\\u{1_f}\""));
    assert!(!is_readable("name = \"\\u{41\""));
    assert!(!is_readable("name = \"\\q\""));
    assert!(!is_readable("name = \"a\rb\""));
    assert!(!is_readable("name = \"a\nb\""));
    assert!(!is_readable("name = \"x"));
    assert!(!is_readable("name = \"x\\"));
    assert!(!is_readable("name(a"));
    assert!(!is_readable("name)"));
    assert!(!is_readable("_name = \"x\""));
    assert!(!is_readable("name = \"x\" // note"));
    assert!(!is_readable(&format!("{}a{}", "(".repeat(MAX_DEPTH + 1), ")".repeat(MAX_DEPTH + 1))));
    assert!(attr("name = c\"x\"").meta.is_none());
    assert!(attr("name = cr\"x\"").meta.is_none());
    assert!(attr("a(c\"x\")").meta.is_none());
    assert!(attr("(/*ERROR*/)").meta.is_none());
    assert!(attr("name = 'a'").meta.is_none());
    assert!(attr("name = \"\\u{d800}\"").meta.is_none());
}

#[test]
fn plain_texts_are_read() {
    assert!(is_readable(""));
    assert!(is_readable("name"));
    assert!(is_readable("name = \"empty\""));
    assert!(is_readable("name=\"test.a\""));
    assert!(is_readable("a1_b :: c = \"\u{e9}\\n\\\"\""));
    assert!(is_readable("rename(a, b(c))"));
    assert!(is_readable("name = 5"));
    assert!(is_readable("ignore = 0123456789"));
    assert!(is_readable("name = \"\\x41\\u{e9}\\u{10FFFF}\""));
    assert!(is_readable(&format!("{}a{}", "(".repeat(MAX_DEPTH), ")".repeat(MAX_DEPTH))));
    let nested = format!("a{}b{}", "(a".repeat(MAX_DEPTH - 1), ")".repeat(MAX_DEPTH - 1));
    assert!(matches!(attr(&nested).meta, Some(Meta::List)));
    assert!(is_readable("= \"x\""));
}

fn scan(mode: Mode, depth: usize) -> Scan {
    Scan { mode, depth, digits: 0, code: 0 }
}

#[test]
fn scan_follows_identifiers_strings_and_parentheses() {
    let start = scan(Mode::Gap, 0);
    assert_eq!(step_over(start, 'a'), scan(Mode::Word, 0));
    assert_eq!(step_over(start, '1'), scan(Mode::Number, 0));
    assert_eq!(step_over(start, '_'), scan(Mode::Refused, 0));
    assert_eq!(step_over(start, '"'), scan(Mode::Text, 0));
    assert_eq!(step_over(start, '('), scan(Mode::Gap, 1));
    assert_eq!(step_over(start, ')'), scan(Mode::Refused, 0));
    let word = scan(Mode::Word, 2);
    assert_eq!(step_over(word, '9'), word);
    assert_eq!(step_over(word, '_'), word);
    assert_eq!(step_over(word, '"'), scan(Mode::Refused, 2));
    assert_eq!(step_over(word, ')'), scan(Mode::Gap, 1));
    let number = scan(Mode::Number, 0);
    assert_eq!(step_over(number, '0'), number);
    assert_eq!(step_over(number, 'a'), scan(Mode::Refused, 0));
    assert_eq!(step_over(number, '_'), scan(Mode::Refused, 0));
    assert_eq!(step_over(number, ','), start);
    let text = scan(Mode::Text, 0);
    assert_eq!(step_over(text, '('), text);
    assert_eq!(step_over(text, '\\'), scan(Mode::Escape, 0));
    assert_eq!(step_over(text, '"'), scan(Mode::Closed, 0));
    assert_eq!(step_over(text, '\n'), scan(Mode::Refused, 0));
    let escape = scan(Mode::Escape, 0);
    assert_eq!(step_over(escape, 'n'), text);
    assert_eq!(step_over(escape, 'x'), scan(Mode::Hex, 0));
    assert_eq!(step_over(escape, 'u'), scan(Mode::Brace, 0));
    assert_eq!(step_over(escape, 'q'), scan(Mode::Refused, 0));
    assert_eq!(step_over(scan(Mode::Hex, 0), '7'), scan(Mode::HexLow, 0));
    assert_eq!(step_over(scan(Mode::Hex, 0), '8'), scan(Mode::Refused, 0));
    assert_eq!(step_over(scan(Mode::HexLow, 0), 'F'), text);
    assert_eq!(step_over(scan(Mode::HexLow, 0), 'g'), scan(Mode::Refused, 0));
    assert_eq!(step_over(scan(Mode::Brace, 0), '{'), scan(Mode::Code, 0));
    assert_eq!(step_over(scan(Mode::Brace, 0), '4'), scan(Mode::Refused, 0));
    let code = scan(Mode::Code, 0);
    assert_eq!(step_over(code, '}'), scan(Mode::Refused, 0));
    let one = step_over(code, 'e');
    assert_eq!(one, Scan { mode: Mode::Code, depth: 0, digits: 1, code: 14 });
    let two = step_over(one, '9');
    assert_eq!(two, Scan { mode: Mode::Code, depth: 0, digits: 2, code: 0xe9 });
    assert_eq!(step_over(two, '}'), text);
    let six = Scan { mode: Mode::Code, depth: 0, digits: 6, code: 0x41 };
    assert_eq!(step_over(six, '0'), scan(Mode::Refused, 0));
    assert_eq!(step_over(six, '}'), text);
    let surrogate = Scan { mode: Mode::Code, depth: 0, digits: 4, code: 0xd800 };
    assert_eq!(step_over(surrogate, '}'), scan(Mode::Refused, 0));
    let closed = scan(Mode::Closed, 0);
    assert_eq!(step_over(closed, 'a'), scan(Mode::Refused, 0));
    assert_eq!(step_over(closed, ','), start);
    let full = scan(Mode::Gap, MAX_DEPTH);
    assert_eq!(step_over(full, '('), scan(Mode::Refused, MAX_DEPTH));
    let refused = scan(Mode::Refused, 0);
    assert_eq!(step_over(refused, 'a'), refused);
    assert_eq!(hex_digit('0'), Some(0));
    assert_eq!(hex_digit('a'), Some(10));
    assert_eq!(hex_digit('F'), Some(15));
    assert_eq!(hex_digit('g'), None);
}

fn other_literal(key: &str) -> Attribute {
    Attribute { meta: Some(Meta::NameValue(vec![key.to_string()], Lit::Other)) }
}

#[test]
fn first_name_annotation_renames() {
    assert_eq!(renamed_field(&vec![]), Ok(None));
    assert_eq!(renamed_field(&vec![attr("name=\"x\"")]), Ok(Some("x".to_string())));
    assert_eq!(
        renamed_field(&vec![attr("other=\"o\""), attr("name=\"x\""), attr("name=\"y\"")]),
        Ok(Some("x".to_string()))
    );
    assert_eq!(
        renamed_field(&vec![other_literal("name"), attr("name=\"y\"")]),
        Ok(Some("y".to_string()))
    );
    assert_eq!(renamed_field(&vec![attr("name=true")]), Ok(None));
    assert_eq!(renamed_field(&vec![attr("name=5"), attr("name=\"y\"")]), Ok(Some("y".to_string())));
    assert_eq!(renamed_field(&vec![attr("name=5")]), Ok(None));
    assert_eq!(renamed_field(&vec![other_literal("name")]), Ok(None));
    assert_eq!(renamed_field(&vec![attr("ignore=\"true\"")]), Ok(None));
    assert_eq!(renamed_field(&vec![attr("name::x=\"n\"")]), Ok(Some("n".to_string())));
    assert_eq!(renamed_field(&vec![attr("x::name=\"n\"")]), Ok(None));
    let no_key = Attribute { meta: Some(Meta::NameValue(vec![], Lit::Str("n".to_string()))) };
    assert_eq!(renamed_field(&vec![no_key]), Ok(None));
}

#[test]
fn ignore_annotation_marks_whatever_its_literal() {
    assert_eq!(ignore(&vec![]), Ok(false));
    assert_eq!(ignore(&vec![attr("ignore=\"true\"")]), Ok(true));
    assert_eq!(ignore(&vec![attr("ignore=\"false\"")]), Ok(true));
    assert_eq!(ignore(&vec![attr("ignore=false")]), Ok(true));
    assert_eq!(ignore(&vec![attr("ignore=1")]), Ok(true));
    assert_eq!(ignore(&vec![other_literal("ignore")]), Ok(true));
    assert_eq!(ignore(&vec![attr("name=\"x\""), attr("ignore=\"true\"")]), Ok(true));
    assert_eq!(ignore(&vec![attr("name=\"ignore\"")]), Ok(false));
}

#[test]
fn malformed_annotations_are_errors() {
    assert_eq!(renamed_field(&vec![attr("name")]), Err(Error::MalformedAnnotation));
    assert_eq!(renamed_field(&vec![attr("name(\"x\")")]), Err(Error::MalformedAnnotation));
    assert_eq!(
        renamed_field(&vec![attr("name=\"x\""), attr("")]),
        Err(Error::MalformedAnnotation)
    );
    assert_eq!(ignore(&vec![attr("ignore")]), Err(Error::MalformedAnnotation));
    assert_eq!(
        ignore(&vec![attr("ignore=\"true\""), attr("= true")]),
        Err(Error::MalformedAnnotation)
    );
    assert_eq!(ignore(&vec![attr("ignore = 'c'")]), Err(Error::MalformedAnnotation));
    assert_eq!(renamed_field(&vec![attr("name = c\"x\"")]), Err(Error::MalformedAnnotation));
    assert_eq!(
        renamed_field(&vec![Attribute { meta: None }]),
        Err(Error::MalformedAnnotation)
    );
    let mut input = test1();
    input.attrs.push(attr("name"));
    assert_eq!(make_has_fields(&input), Err(Error::MalformedAnnotation));
    let mut input = test1();
    input.fields[5].attrs.push(attr("ignore"));
    assert_eq!(make_has_fields(&input), Err(Error::MalformedAnnotation));
}

#[test]
fn option_and_vec_are_single_identifiers() {
    assert!(path_is_option(&path(&["Option"])));
    assert!(!path_is_option(&path(&["Vec"])));
    assert!(!path_is_option(&path(&["std", "Option"])));
    assert!(!path_is_option(&path(&[])));
    assert!(!path_is_option(&Path { leading_colon: true, segments: path(&["Option"]).segments }));
    assert!(path_is_vec(&path(&["Vec"])));
    assert!(!path_is_vec(&path(&["Option"])));
    assert!(!path_is_vec(&path(&["std", "vec", "Vec"])));
}

#[test]
fn registered_types_resolve() {
    assert_eq!(resolve(&named("String")), Ok(Type::Bytes));
    assert_eq!(resolve(&named("IpAddr")), Ok(Type::Ip));
    for name in [
        "i8", "i16", "i32", "i64", "i128", "isize", "u8", "u16", "u32", "u64", "u128", "usize",
    ] {
        assert_eq!(resolve(&named(name)), Ok(Type::Int));
    }
    assert_eq!(
        resolve(&TypeExpr::Path { qself: false, path: path(&["std", "net", "IpAddr"]) }),
        Ok(Type::Ip)
    );
    assert_eq!(resolve(&pairs_type()), Ok(Type::Bytes));
}

#[test]
fn optional_types_resolve_as_what_they_wrap() {
    assert_eq!(resolve(&generic("Option", named("String"))), Ok(Type::Bytes));
    assert_eq!(resolve(&generic("Option", named("u16"))), Ok(Type::Int));
    assert_eq!(resolve(&generic("Option", generic("Option", named("IpAddr")))), Ok(Type::Ip));
    assert_eq!(resolve(&generic("Option", pairs_type())), Ok(Type::Bytes));
    assert_eq!(
        resolve(&generic("Option", named("SystemTime"))),
        Err(Error::UnsupportedType)
    );
}

#[test]
fn other_types_are_unsupported() {
    assert_eq!(resolve(&named("SystemTime")), Err(Error::UnsupportedType));
    assert_eq!(resolve(&named("Option")), Err(Error::UnsupportedType));
    assert_eq!(resolve(&named("Vec")), Err(Error::UnsupportedType));
    assert_eq!(resolve(&generic("Vec", named("String"))), Err(Error::UnsupportedType));
    assert_eq!(
        resolve(&generic("Vec", TypeExpr::Tuple(vec![named("String")]))),
        Err(Error::UnsupportedType)
    );
    assert_eq!(
        resolve(&generic("Vec", TypeExpr::Tuple(vec![named("String"), named("u8")]))),
        Err(Error::UnsupportedType)
    );
    assert_eq!(resolve(&generic("String", named("u8"))), Err(Error::UnsupportedType));
    assert_eq!(
        resolve(&TypeExpr::Tuple(vec![named("String"), named("String")])),
        Err(Error::UnsupportedType)
    );
    assert_eq!(resolve(&TypeExpr::Other), Err(Error::UnsupportedType));
    assert_eq!(
        resolve(&TypeExpr::Path { qself: true, path: path(&["String"]) }),
        Err(Error::UnsupportedType)
    );
    assert_eq!(
        resolve(&TypeExpr::Path { qself: false, path: path(&[]) }),
        Err(Error::UnsupportedType)
    );
    let lifetime = PathArguments::AngleBracketed(vec![GenericArgument::Other]);
    assert_eq!(
        resolve(&TypeExpr::Path {
            qself: false,
            path: Path { leading_colon: false, segments: vec![segment("Option", lifetime)] },
        }),
        Err(Error::UnsupportedType)
    );
    assert_eq!(
        resolve(&TypeExpr::Path {
            qself: false,
            path: Path {
                leading_colon: false,
                segments: vec![segment("Option", PathArguments::Parenthesized)],
            },
        }),
        Err(Error::UnsupportedType)
    );
}

#[test]
fn unsupported_type_of_a_field_is_an_error_unless_ignored() {
    let mut input = test1();
    input.fields[5].attrs.clear();
    assert_eq!(make_has_fields(&input), Err(Error::UnsupportedType));
    let scheme = Scheme::try_from_iter(vec![]).unwrap();
    assert_eq!(
        make_filterable(&input, &test1_values(), &scheme).err(),
        Some(Error::UnsupportedType)
    );
    assert!(make_has_fields(&test1()).is_ok());
}

#[test]
fn first_faulty_field_decides_the_error() {
    let fields = vec![
        field(vec![], "a", named("SystemTime")),
        field(vec![attr("name")], "b", named("String")),
    ];
    assert_eq!(describe(&fields, &None).err(), Some(Error::UnsupportedType));
    let fields = vec![
        field(vec![attr("name")], "b", named("String")),
        field(vec![], "a", named("SystemTime")),
    ];
    assert_eq!(describe(&fields, &None).err(), Some(Error::MalformedAnnotation));
}

#[test]
fn descriptors_keep_the_order_of_declaration() {
    let ds = describe(&test1().fields, &None).unwrap();
    let paths: Vec<&str> = ds.iter().map(|d| d.path.as_str()).collect();
    assert_eq!(paths, vec!["test.a", "b", "c", "d", "e", "f"]);
    let types: Vec<Option<Type>> = ds.iter().map(|d| d.ty).collect();
    assert_eq!(
        types,
        vec![
            Some(Type::Bytes),
            Some(Type::Ip),
            Some(Type::Int),
            Some(Type::Bytes),
            Some(Type::Bytes),
            None
        ]
    );
    assert!(ds[5].ignore());
}

#[test]
fn ignored_fields_stay_out_of_the_scheme() {
    let ds = vec![
        FieldDescriptor { path: "a".to_string(), ty: None },
        FieldDescriptor { path: "b".to_string(), ty: Some(Type::Int) },
        FieldDescriptor { path: "c".to_string(), ty: None },
    ];
    assert_eq!(build(&ds), vec![entry("b", Type::Int)]);
    assert_eq!(build(&vec![]), vec![]);
    let fields = vec![
        field(vec![attr("ignore=\"x\"")], "a", named("String")),
        field(vec![], "b", named("String")),
    ];
    assert_eq!(
        iter_members_has_fields(&fields, &Some("n".to_string())),
        Ok(vec![entry("n.b", Type::Bytes)])
    );
}

#[test]
fn ignored_fields_stay_out_of_the_context() {
    let scheme = Scheme::try_from_iter(vec![entry("a", Type::Bytes), entry("b", Type::Bytes)])
        .unwrap();
    let mut ctx = ExecutionContext::new(&scheme);
    let ds = vec![
        FieldDescriptor { path: "a".to_string(), ty: None },
        FieldDescriptor { path: "b".to_string(), ty: Some(Type::Bytes) },
    ];
    let values = vec![FieldValue::Text("x".to_string()), FieldValue::Text("y".to_string())];
    assert_eq!(materialize(&values, &ds, &mut ctx), Ok(()));
    assert_eq!(ctx.get_field_value("a"), None);
    assert_eq!(ctx.get_field_value("b"), Some(&LhsValue::Bytes("y".to_string())));
}

#[test]
fn type_mismatch_keeps_what_was_written_before() {
    let scheme = Scheme::try_from_iter(vec![
        entry("w", Type::Int),
        entry("x", Type::Ip),
        entry("y", Type::Int),
    ])
    .unwrap();
    let mut ctx = ExecutionContext::new(&scheme);
    let fields = vec![
        field(vec![], "w", named("i64")),
        field(vec![], "x", named("String")),
        field(vec![], "y", named("i64")),
    ];
    let values =
        vec![FieldValue::I64(1), FieldValue::Text("text".to_string()), FieldValue::I64(2)];
    let r = iter_members_filterable(&fields, &None, &values, &mut ctx);
    assert_eq!(
        r,
        Err(Error::TypeMismatchError(TypeMismatchError {
            expected: Type::Ip,
            actual: Type::Bytes
        }))
    );
    assert_eq!(ctx.get_field_value("w"), Some(&LhsValue::Int(1)));
    assert_eq!(ctx.get_field_value("x"), None);
    assert_eq!(ctx.get_field_value("y"), None);
}

#[test]
fn undeclared_path_is_refused() {
    let scheme = Scheme::try_from_iter(vec![entry("w", Type::Int)]).unwrap();
    let input = DeriveInput {
        attrs: vec![],
        ident: "S".to_string(),
        fields: vec![field(vec![], "w", named("i64")), field(vec![], "z", named("i64"))],
    };
    let values = vec![FieldValue::I64(1), FieldValue::I64(2)];
    assert_eq!(make_filterable(&input, &values, &scheme).err(), Some(Error::UnknownField));
}

#[test]
fn instance_needs_one_value_for_each_field() {
    let scheme = Scheme::try_from_iter(vec![entry("w", Type::Int), entry("z", Type::Int)])
        .unwrap();
    let mut ctx = ExecutionContext::new(&scheme);
    let ds = vec![
        FieldDescriptor { path: "w".to_string(), ty: Some(Type::Int) },
        FieldDescriptor { path: "z".to_string(), ty: Some(Type::Int) },
    ];
    assert_eq!(
        materialize(&vec![FieldValue::I64(1)], &ds, &mut ctx),
        Err(Error::ValueCountMismatch)
    );
    assert_eq!(ctx.get_field_value("w"), None);
    let three = vec![FieldValue::I64(1), FieldValue::I64(2), FieldValue::I64(3)];
    assert_eq!(materialize(&three, &ds, &mut ctx), Err(Error::ValueCountMismatch));
    assert_eq!(ctx.get_field_value("w"), None);
    assert_eq!(ctx.get_field_value("z"), None);
    let input = test1();
    let scheme = Scheme::try_from_iter(make_has_fields(&input).unwrap()).unwrap();
    let mut values = test1_values();
    values.pop();
    assert_eq!(
        make_filterable(&input, &values, &scheme).err(),
        Some(Error::ValueCountMismatch)
    );
    let short = Instance { definition: &input, values };
    assert_eq!(short.filter_context(&scheme).err(), Some(Error::ValueCountMismatch));
}

#[test]
fn every_integer_type_has_a_value_for_its_field() {
    let names = [
        "i8", "i16", "i32", "i64", "i128", "isize", "u8", "u16", "u32", "u64", "u128", "usize",
    ];
    let input = DeriveInput {
        attrs: vec![],
        ident: "S".to_string(),
        fields: names.iter().map(|name| field(vec![], name, named(name))).collect(),
    };
    let scheme = Scheme::try_from_iter(make_has_fields(&input).unwrap()).unwrap();
    let values = vec![
        FieldValue::I8(-8),
        FieldValue::I16(-16),
        FieldValue::I32(-32),
        FieldValue::I64(-64),
        FieldValue::I128(-128),
        FieldValue::Isize(-1),
        FieldValue::U8(8),
        FieldValue::U16(16),
        FieldValue::U32(32),
        FieldValue::U64(64),
        FieldValue::U128(128),
        FieldValue::Usize(1),
    ];
    let ctx = make_filterable(&input, &values, &scheme).unwrap();
    let expected: [i64; 12] = [-8, -16, -32, -64, -128, -1, 8, 16, 32, 64, 128, 1];
    for (name, value) in names.iter().zip(expected) {
        assert_eq!(ctx.get_field_value(name), Some(&LhsValue::Int(value)));
    }
}

#[test]
fn equal_instances_give_equal_contexts() {
    let input = test1();
    let scheme = Scheme::try_from_iter(make_has_fields(&input).unwrap()).unwrap();
    let first = make_filterable(&input, &test1_values(), &scheme).unwrap();
    let second = make_filterable(&input, &test1_values(), &scheme).unwrap();
    for i in 0..scheme.field_count() {
        let path = ["empty.test.a", "empty.b", "empty.c", "empty.d", "empty.e"][i];
        assert_eq!(first.get_field_value(path), second.get_field_value(path));
        assert!(first.get_field_value(path).is_some());
    }
}

#[test]
fn absent_optional_field_has_a_scheme_entry_and_no_value() {
    let input = DeriveInput {
        attrs: vec![],
        ident: "S".to_string(),
        fields: vec![
            field(vec![], "d", generic("Option", named("String"))),
            field(vec![], "e", pairs_type()),
        ],
    };
    let fields = make_has_fields(&input).unwrap();
    assert_eq!(fields, vec![entry("d", Type::Bytes), entry("e", Type::Bytes)]);
    let scheme = Scheme::try_from_iter(fields).unwrap();
    let values = vec![FieldValue::Optional(None), FieldValue::Pairs(vec![])];
    let ctx = make_filterable(&input, &values, &scheme).unwrap();
    assert_eq!(ctx.get_field_value("d"), None);
    assert_eq!(ctx.get_field_value("e"), None);
}

#[test]
fn field_value_adapts_through_the_trait() {
    let scheme = Scheme::try_from_iter(vec![entry("a", Type::Bytes)]).unwrap();
    let mut ctx = ExecutionContext::new(&scheme);
    let value = FieldValue::Text("A".to_string());
    assert_eq!(GenContext::generate_context(&value, &mut ctx, "a"), Ok(()));
    assert_eq!(ctx.get_field_value("a"), Some(&LhsValue::Bytes("A".to_string())));
}
