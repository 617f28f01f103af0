use monots_docgen::class::{ClassConstructorDef, ClassDef, ClassMethodDef, ClassPropertyDef};
use monots_docgen::enums::{EnumDef, EnumMemberDef};
use monots_docgen::function::FunctionDef;
use monots_docgen::interface::{
    InterfaceCallSignatureDef, InterfaceDef, InterfaceIndexSignatureDef, InterfaceMethodDef,
    InterfacePropertyDef,
};
use monots_docgen::js_doc::{JsDoc, JsDocTag};
use monots_docgen::namespace::NamespaceDef;
use monots_docgen::params::ParamShape;
use monots_docgen::json::json_string_text;
use monots_docgen::printer::{render, render_type, visible_doc_nodes};
use monots_docgen::DocPrinter;
use monots_docgen::text::{decimal_text, indented_text, join_text, padding_text};
use monots_docgen::ts_type::TsTypeDef;
use monots_docgen::ts_type_param::TsTypeParamDef;
use monots_docgen::type_alias::TypeAliasDef;
use monots_docgen::variable::VariableDef;
use monots_docgen::{DeclarationKind, DocNode, DocNodeDef, ImportDef, Location, ParamDef};

fn loc(line: usize, col: usize) -> Location {
    Location { filename: "file:///a.ts".to_string(), line, col }
}

fn keyword(name: &str) -> TsTypeDef {
    TsTypeDef::Keyword(name.to_string())
}

fn param(name: &str, ts_type: Option<TsTypeDef>) -> ParamDef {
    ParamDef { name: name.to_string(), default: None, ts_type, shape: None }
}

fn signature(params: Vec<ParamDef>, return_type: Option<TsTypeDef>) -> FunctionDef {
    FunctionDef { params, return_type, type_params: vec![], is_async: false, is_generator: false }
}

fn node(name: &str, kind: DeclarationKind, def: DocNodeDef) -> DocNode {
    DocNode { name: name.to_string(), location: loc(1, 0), declaration_kind: kind, js_doc: None, def }
}

fn function(name: &str, kind: DeclarationKind) -> DocNode {
    node(name, kind, DocNodeDef::Function(signature(vec![], None)))
}

fn property(name: &str, kind: DeclarationKind) -> ClassPropertyDef {
    ClassPropertyDef {
        js_doc: None,
        name: name.to_string(),
        declaration_kind: kind,
        ts_type: Some(keyword("string")),
        is_static: false,
        readonly: false,
        location: loc(2, 2),
    }
}

fn method(name: &str, kind: DeclarationKind) -> ClassMethodDef {
    ClassMethodDef {
        js_doc: None,
        name: name.to_string(),
        declaration_kind: kind,
        function_def: signature(vec![], Some(keyword("void"))),
        is_static: false,
        location: loc(3, 2),
    }
}

fn class(constructor_kind: DeclarationKind) -> DocNodeDef {
    DocNodeDef::Class(ClassDef {
        constructor: Some(ClassConstructorDef {
            js_doc: None,
            declaration_kind: constructor_kind,
            params: vec![param("x", Some(keyword("number")))],
            location: loc(2, 2),
        }),
        properties: vec![
            property("secret", DeclarationKind::Private),
            property("open", DeclarationKind::Export),
        ],
        methods: vec![
            method("run", DeclarationKind::Export),
            method("hidden", DeclarationKind::Private),
        ],
        extends: Some("Base".to_string()),
        implements: vec!["I".to_string(), "J".to_string()],
        type_params: vec![],
    })
}

#[test]
fn numbers_are_written_in_decimal() {
    assert_eq!(decimal_text(0), "0");
    assert_eq!(decimal_text(7), "7");
    assert_eq!(decimal_text(10), "10");
    assert_eq!(decimal_text(1234567890), "1234567890");
    assert_eq!(decimal_text(usize::MAX), usize::MAX.to_string());
}

#[test]
fn text_helpers_pad_join_and_indent() {
    assert_eq!(padding_text(0), "");
    assert_eq!(padding_text(3), "   ");
    assert_eq!(join_text(&vec![], ", "), "");
    assert_eq!(join_text(&vec!["a".to_string()], ", "), "a");
    assert_eq!(join_text(&vec!["a".to_string(), "".to_string(), "c".to_string()], ", "), "a, , c");
    assert_eq!(indented_text("", "  "), "");
    assert_eq!(indented_text("one", "  "), "one");
    assert_eq!(indented_text("one\ntwo\n", "  "), "one\n  two\n  ");
    assert_eq!(indented_text("é\n\nü", "› "), "é\n› \n› ü");
}

#[test]
fn types_are_written_as_source_text() {
    let union = TsTypeDef::Union(vec![keyword("string"), TsTypeDef::Literal("42".to_string())]);
    assert_eq!(render_type(&union), "string | 42");
    assert_eq!(render_type(&TsTypeDef::Array(Box::new(keyword("T")))), "T[]");
    assert_eq!(
        render_type(&TsTypeDef::Array(Box::new(TsTypeDef::Union(vec![
            keyword("a"),
            keyword("b")
        ])))),
        "(a | b)[]"
    );
    assert_eq!(
        render_type(&TsTypeDef::Generic {
            name: "Map".to_string(),
            args: vec![keyword("K"), TsTypeDef::Reference("V".to_string())],
        }),
        "Map<K, V>"
    );
    assert_eq!(
        render_type(&TsTypeDef::Intersection(vec![keyword("A"), keyword("B"), keyword("C")])),
        "A & B & C"
    );
    assert_eq!(
        render_type(&TsTypeDef::Conditional {
            check: Box::new(keyword("T")),
            extends_type: Box::new(keyword("U")),
            true_type: Box::new(keyword("X")),
            false_type: Box::new(keyword("never")),
        }),
        "T extends U ? X : never"
    );
    assert_eq!(
        render_type(&TsTypeDef::Mapped {
            param: "K".to_string(),
            constraint: Box::new(keyword("Keys")),
            value: Box::new(keyword("boolean")),
        }),
        "{ [K in Keys]: boolean }"
    );
    assert_eq!(render_type(&TsTypeDef::Union(vec![])), "");
}

#[test]
fn function_is_rendered_with_header_location_and_documentation() {
    let mut f = node(
        "add",
        DeclarationKind::Export,
        DocNodeDef::Function(FunctionDef {
            params: vec![
                param("a", Some(keyword("number"))),
                ParamDef {
                    name: "b".to_string(),
                    default: Some("1".to_string()),
                    ts_type: None,
                    shape: None,
                },
                ParamDef {
                    name: "".to_string(),
                    default: None,
                    ts_type: Some(keyword("Opts")),
                    shape: Some(ParamShape::Object),
                },
                ParamDef {
                    name: "".to_string(),
                    default: None,
                    ts_type: None,
                    shape: Some(ParamShape::Array),
                },
            ],
            return_type: Some(keyword("number")),
            type_params: vec![
                TsTypeParamDef {
                    name: "T".to_string(),
                    constraint: Some(keyword("object")),
                    default: Some(keyword("any")),
                },
                TsTypeParamDef { name: "U".to_string(), constraint: None, default: None },
            ],
            is_async: true,
            is_generator: true,
        }),
    );
    f.location = loc(12, 4);
    f.js_doc = Some(JsDoc {
        doc: Some("Adds.\nTwice.".to_string()),
        tags: vec![
            JsDocTag::Param { name: "a".to_string(), doc: Some("first".to_string()) },
            JsDocTag::Param { name: "b".to_string(), doc: None },
            JsDocTag::Return { doc: Some("the sum".to_string()) },
            JsDocTag::Deprecated { doc: None },
            JsDocTag::Example { doc: Some("add(1)\nadd(2)".to_string()) },
            JsDocTag::Unsupported { name: "since".to_string(), value: "1.0".to_string() },
            JsDocTag::Unsupported { name: "internal".to_string(), value: "".to_string() },
        ],
    });
    let expected = "\
async function* add<T extends object = any, U>(a: number, b = 1, {...}: Opts, [...]): number
  Defined in file:///a.ts:12:4
  Adds.
  Twice.
  @param a first
  @param b
  @return the sum
  @deprecated
  @example add(1)
  add(2)
  @since 1.0
  @internal

";
    assert_eq!(render(&vec![f], true, false, false), expected);
}

#[test]
fn each_kind_has_its_header_and_details() {
    let nodes = vec![
        node(
            "v",
            DeclarationKind::Export,
            DocNodeDef::Variable(VariableDef { ts_type: Some(keyword("string")), has_initializer: true }),
        ),
        node(
            "Dir",
            DeclarationKind::Export,
            DocNodeDef::Enum(EnumDef {
                members: vec![
                    EnumMemberDef { name: "Up".to_string(), value: Some("1".to_string()) },
                    EnumMemberDef { name: "Down".to_string(), value: None },
                ],
            }),
        ),
        node(
            "Pair",
            DeclarationKind::Export,
            DocNodeDef::TypeAlias(TypeAliasDef {
                ts_type: TsTypeDef::Union(vec![keyword("A"), keyword("B")]),
                type_params: vec![TsTypeParamDef {
                    name: "A".to_string(),
                    constraint: None,
                    default: None,
                }],
            }),
        ),
        node(
            "Shape",
            DeclarationKind::Declare,
            DocNodeDef::Interface(InterfaceDef {
                extends: vec!["Base".to_string(), "Other".to_string()],
                methods: vec![InterfaceMethodDef {
                    js_doc: Some(JsDoc { doc: Some("Area.".to_string()), tags: vec![] }),
                    name: "area".to_string(),
                    function_def: signature(vec![], Some(keyword("number"))),
                    location: loc(3, 2),
                }],
                properties: vec![InterfacePropertyDef {
                    js_doc: None,
                    name: "name".to_string(),
                    ts_type: Some(keyword("string")),
                    optional: true,
                    location: loc(2, 2),
                }],
                call_signatures: vec![InterfaceCallSignatureDef {
                    params: vec![param("x", None)],
                    return_type: Some(keyword("void")),
                }],
                index_signatures: vec![InterfaceIndexSignatureDef {
                    params: vec![param("key", Some(keyword("string")))],
                    value_type: Some(keyword("number")),
                    readonly: true,
                }],
                type_params: vec![],
            }),
        ),
        node(
            "x",
            DeclarationKind::Private,
            DocNodeDef::Import(ImportDef {
                src: "./b.ts".to_string(),
                imported: "y".to_string(),
                alias: Some("x".to_string()),
            }),
        ),
    ];
    let expected = "\
var v: string
  Defined in file:///a.ts:1:0

enum Dir
  Defined in file:///a.ts:1:0
  Up = 1
  Down

type Pair<A> = A | B
  Defined in file:///a.ts:1:0

interface Shape extends Base, Other
  Defined in file:///a.ts:1:0
  (x): void
  readonly [key: string]: number
  name?: string
  area(): number
    Area.

import x from ./b.ts
  Defined in file:///a.ts:1:0

";
    assert_eq!(render(&nodes, true, false, false), expected);
}

#[test]
fn class_is_rendered_with_all_members_when_private_is_shown() {
    let nodes = vec![node("K", DeclarationKind::Export, class(DeclarationKind::Private))];
    let expected = "\
class K extends Base implements I, J
  Defined in file:///a.ts:1:0
  constructor(x: number)
  secret: string
  open: string
  run(): void
  hidden(): void

";
    assert_eq!(render(&nodes, true, false, false), expected);
}

#[test]
fn private_members_of_an_exported_class_are_left_out() {
    let nodes = vec![node("K", DeclarationKind::Export, class(DeclarationKind::Private))];
    let expected = "\
class K extends Base implements I, J
  Defined in file:///a.ts:1:0
  open: string
  run(): void

";
    let text = render(&nodes, false, false, false);
    assert_eq!(text, expected);
    assert!(!text.contains("secret"));
    assert!(!text.contains("hidden"));
    assert!(!text.contains("constructor"));
}

#[test]
fn private_declarations_are_left_out_at_every_depth() {
    let nodes = vec![
        function("gone", DeclarationKind::Private),
        node(
            "Outer",
            DeclarationKind::Export,
            DocNodeDef::Namespace(NamespaceDef {
                elements: vec![
                    function("kept", DeclarationKind::Declare),
                    function("inner_gone", DeclarationKind::Private),
                    node(
                        "Inner",
                        DeclarationKind::Export,
                        DocNodeDef::Namespace(NamespaceDef {
                            elements: vec![function("deep_gone", DeclarationKind::Private)],
                        }),
                    ),
                ],
            }),
        ),
        node(
            "Hidden",
            DeclarationKind::Private,
            DocNodeDef::Namespace(NamespaceDef {
                elements: vec![function("inside_hidden", DeclarationKind::Export)],
            }),
        ),
    ];
    let expected = "\
namespace Outer
  Defined in file:///a.ts:1:0
  function kept()
    Defined in file:///a.ts:1:0

  namespace Inner
    Defined in file:///a.ts:1:0


";
    let text = render(&nodes, false, false, false);
    assert_eq!(text, expected);
    assert!(!text.contains("gone"));
    assert!(!text.contains("hidden"));
    let all = render(&nodes, true, false, false);
    assert!(all.contains("function gone()"));
    assert!(all.contains("function deep_gone()"));
    assert!(all.contains("function inside_hidden()"));
}

#[test]
fn rendering_without_private_is_rendering_what_is_visible() {
    let nodes = vec![
        function("gone", DeclarationKind::Private),
        node("K", DeclarationKind::Export, class(DeclarationKind::Export)),
        function("kept", DeclarationKind::Export),
    ];
    let visible = visible_doc_nodes(&nodes);
    assert_eq!(visible.len(), 2);
    assert_eq!(render(&nodes, false, false, false), render(&visible, true, false, false));
    assert_eq!(render(&visible, false, false, false), render(&visible, true, false, false));
    assert_eq!(visible_doc_nodes(&visible), visible);
}

#[test]
fn nothing_renders_to_nothing() {
    assert_eq!(render(&vec![], true, false, false), "");
    assert_eq!(render(&vec![function("gone", DeclarationKind::Private)], false, false, true), "");
}

#[test]
fn color_styles_keywords_names_locations_and_documentation() {
    let mut f = function("f", DeclarationKind::Export);
    f.js_doc = Some(JsDoc { doc: Some("Doc.".to_string()), tags: vec![] });
    let expected = "\
\x1b[0m\x1b[35mfunction\x1b[0m \x1b[0m\x1b[1mf\x1b[0m()
  \x1b[0m\x1b[3m\x1b[38;5;8mDefined in file:///a.ts:1:0\x1b[0m
  \x1b[0m\x1b[38;5;8mDoc.\x1b[0m

";
    assert_eq!(render(&vec![f], true, false, true), expected);
}

#[test]
fn printer_formats_what_render_renders() {
    let nodes = vec![
        function("gone", DeclarationKind::Private),
        function("kept", DeclarationKind::Export),
    ];
    assert_eq!(DocPrinter::new(&nodes, false, false).format(), render(&nodes, false, false, false));
    assert_eq!(DocPrinter::new(&nodes, true, true).format(), render(&nodes, true, false, true));
    assert_eq!(
        DocPrinter::new(&nodes, false, false).format(),
        "function kept()\n  Defined in file:///a.ts:1:0\n\n"
    );
}

#[test]
fn json_strings_escape_quotes_backslashes_and_control_characters() {
    assert_eq!(json_string_text(""), "\"\"");
    assert_eq!(json_string_text("plain é"), "\"plain é\"");
    assert_eq!(json_string_text("a\"b\\c"), "\"a\\\"b\\\\c\"");
    assert_eq!(json_string_text("\n\t\u{1}\u{1f} "), "\"\\u000a\\u0009\\u0001\\u001f \"");
    assert_eq!(json_string_text("\"\""), "\"\\\"\\\"\"");
}

#[test]
fn json_outline_holds_each_declaration_with_its_children() {
    let mut f = function("f", DeclarationKind::Declare);
    f.location = loc(3, 14);
    f.js_doc = Some(JsDoc { doc: Some("Says \"hi\".".to_string()), tags: vec![] });
    let nodes = vec![
        node(
            "Outer",
            DeclarationKind::Export,
            DocNodeDef::Namespace(NamespaceDef { elements: vec![f] }),
        ),
        node("K", DeclarationKind::Export, class(DeclarationKind::Export)),
    ];
    let at = "\"location\":{\"filename\":\"file:///a.ts\",\"line\":1,\"col\":0}";
    let expected = format!(
        "[{{\"kind\":\"namespace\",\"name\":\"Outer\",{at},\"declarationKind\":\"export\",\"jsDoc\":null,\"children\":[\
{{\"kind\":\"function\",\"name\":\"f\",\"location\":{{\"filename\":\"file:///a.ts\",\"line\":3,\"col\":14}},\"declarationKind\":\"declare\",\"jsDoc\":\"Says \\\"hi\\\".\",\"children\":[]}}]}},\
{{\"kind\":\"class\",\"name\":\"K\",{at},\"declarationKind\":\"export\",\"jsDoc\":null,\"children\":[\
{{\"kind\":\"function\",\"name\":\"run\",\"location\":{{\"filename\":\"file:///a.ts\",\"line\":3,\"col\":2}},\"declarationKind\":\"export\",\"jsDoc\":null,\"children\":[]}},\
{{\"kind\":\"variable\",\"name\":\"open\",\"location\":{{\"filename\":\"file:///a.ts\",\"line\":2,\"col\":2}},\"declarationKind\":\"export\",\"jsDoc\":null,\"children\":[]}}]}}]"
    );
    assert_eq!(render(&nodes, false, true, false), expected);
    assert_eq!(render(&nodes, false, true, true), expected);
    let all = render(&nodes, true, true, false);
    assert!(all.contains("\"name\":\"secret\""));
    assert!(all.contains("\"name\":\"hidden\""));
    assert_eq!(render(&vec![], true, true, false), "[]");
}
