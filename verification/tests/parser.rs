use monots_docgen::ast::{
    ClassDecl, ClassMember, Decl, DeclStatement, EnumDecl, ExportSpecifier, FnDecl, ImportDecl,
    ImportSpecifier, InterfaceDecl, InterfaceMember, ModuleGraph, ModuleItem, ParsedModule,
    ParsedSource, Span, TsModuleDecl, TsModuleName, TsNamespaceBody, TsNamespaceDecl,
    TsTypeAliasDecl, VarDecl, VarDeclarator,
};
use monots_docgen::class::{ClassConstructorDef, ClassDef, ClassMethodDef, ClassPropertyDef};
use monots_docgen::enums::{EnumDef, EnumMemberDef};
use monots_docgen::function::FunctionDef;
use monots_docgen::interface::{
    InterfaceCallSignatureDef, InterfaceDef, InterfaceIndexSignatureDef, InterfaceMethodDef,
    InterfacePropertyDef,
};
use monots_docgen::js_doc::JsDoc;
use monots_docgen::namespace::{
    get_doc_for_ts_module, get_doc_for_ts_namespace_decl, NamespaceDef,
};
use monots_docgen::parser::{get_doc_nodes_for_module_body, walk};
use monots_docgen::ts_type::TsTypeDef;
use monots_docgen::ts_type_param::TsTypeParamDef;
use monots_docgen::type_alias::{get_doc_for_ts_type_alias_decl, TypeAliasDef};
use monots_docgen::variable::VariableDef;
use monots_docgen::{
    DeclarationKind, DocNode, DocNodeDef, DocNodeKind, DocParser, ImportDef, Location, ParamDef,
    Reexport, ReexportKind,
};

fn source(specifier: &str, text: &str) -> ParsedSource {
    ParsedSource { specifier: specifier.to_string(), text: text.chars().collect() }
}

fn span(start: usize) -> Span {
    Span { start, end: start + 1 }
}

fn loc(file: &str, line: usize, col: usize) -> Location {
    Location { filename: file.to_string(), line, col }
}

fn keyword(name: &str) -> TsTypeDef {
    TsTypeDef::Keyword(name.to_string())
}

fn signature() -> FunctionDef {
    FunctionDef {
        params: vec![ParamDef {
            name: "a".to_string(),
            default: None,
            ts_type: Some(keyword("number")),
            shape: None,
        }],
        return_type: Some(keyword("void")),
        type_params: vec![],
        is_async: false,
        is_generator: false,
    }
}

fn function_stmt(name: &str, start: usize, exported: bool) -> ModuleItem {
    ModuleItem::Decl(DeclStatement {
        span: span(start),
        exported,
        declare: false,
        decl: Decl::Function(FnDecl { name: name.to_string(), function: signature() }),
    })
}

fn function_node(file: &str, name: &str, line: usize, col: usize, kind: DeclarationKind) -> DocNode {
    DocNode {
        name: name.to_string(),
        location: loc(file, line, col),
        declaration_kind: kind,
        js_doc: None,
        def: DocNodeDef::Function(signature()),
    }
}

fn import_stmt(src: &str, imported: &str, local: Option<&str>) -> ModuleItem {
    ModuleItem::Import(ImportDecl {
        span: span(0),
        src: src.to_string(),
        specifiers: vec![ImportSpecifier {
            imported: imported.to_string(),
            local: local.map(|l| l.to_string()),
        }],
    })
}

fn import_node(file: &str, src: &str, imported: &str, local: Option<&str>) -> DocNode {
    DocNode {
        name: local.unwrap_or(imported).to_string(),
        location: loc(file, 1, 0),
        declaration_kind: DeclarationKind::Private,
        js_doc: None,
        def: DocNodeDef::Import(ImportDef {
            src: src.to_string(),
            imported: imported.to_string(),
            alias: local.map(|l| l.to_string()),
        }),
    }
}

fn export_all(src: &str) -> ModuleItem {
    ModuleItem::ExportAll { src: src.to_string() }
}

fn export_named(src: &str, orig: &str, exported: Option<&str>) -> ModuleItem {
    ModuleItem::ExportNamed {
        src: src.to_string(),
        specifiers: vec![ExportSpecifier::Named {
            orig: orig.to_string(),
            exported: exported.map(|e| e.to_string()),
        }],
    }
}

fn module(specifier: &str, body: Vec<ModuleItem>) -> ParsedModule {
    ParsedModule { source: source(specifier, "0123456789\n0123456789\n"), body }
}

fn resolve(modules: Vec<ParsedModule>, root: &str) -> Vec<DocNode> {
    DocParser::new(ModuleGraph { modules }).parse_with_reexports(root)
}

const A: &str = "file:///a.ts";
const B: &str = "file:///b.ts";
const C: &str = "file:///c.ts";

#[test]
fn walk_reads_declarations_in_source_order() {
    let text = "/** One. */\nexport function one(a: number): void {}\ndeclare const two: string, three = 1;\nlet four;";
    let src = source(A, text);
    let at = |needle: &str| text.find(needle).unwrap();
    let body = vec![
        ModuleItem::Decl(DeclStatement {
            span: span(at("export function")),
            exported: true,
            declare: false,
            decl: Decl::Function(FnDecl { name: "one".to_string(), function: signature() }),
        }),
        ModuleItem::Other,
        ModuleItem::Decl(DeclStatement {
            span: span(at("declare const")),
            exported: false,
            declare: true,
            decl: Decl::Variable(VarDecl {
                declarators: vec![
                    VarDeclarator {
                        name: "two".to_string(),
                        ts_type: Some(keyword("string")),
                        has_initializer: false,
                    },
                    VarDeclarator { name: "three".to_string(), ts_type: None, has_initializer: true },
                ],
            }),
        }),
        ModuleItem::Decl(DeclStatement {
            span: span(at("let four")),
            exported: false,
            declare: false,
            decl: Decl::Variable(VarDecl {
                declarators: vec![VarDeclarator {
                    name: "four".to_string(),
                    ts_type: None,
                    has_initializer: false,
                }],
            }),
        }),
    ];
    let variable = |name: &str, line: usize, kind, ts_type, has_initializer| DocNode {
        name: name.to_string(),
        location: loc(A, line, 0),
        declaration_kind: kind,
        js_doc: None,
        def: DocNodeDef::Variable(VariableDef { ts_type, has_initializer }),
    };
    let nodes = get_doc_nodes_for_module_body(&src, &body);
    assert_eq!(
        nodes,
        vec![
            DocNode {
                name: "one".to_string(),
                location: loc(A, 2, 0),
                declaration_kind: DeclarationKind::Export,
                js_doc: Some(JsDoc { doc: Some("One.".to_string()), tags: vec![] }),
                def: DocNodeDef::Function(signature()),
            },
            variable("two", 3, DeclarationKind::Declare, Some(keyword("string")), false),
            variable("three", 3, DeclarationKind::Declare, None, true),
            variable("four", 4, DeclarationKind::Private, None, false),
        ]
    );
    assert_eq!(nodes[0].kind(), DocNodeKind::Function);
    assert_eq!(nodes[1].kind(), DocNodeKind::Variable);
}

#[test]
fn walk_parts_declarations_from_reexports() {
    let parsed = module(
        A,
        vec![
            export_all(B),
            function_stmt("f", 0, true),
            ModuleItem::ExportNamed {
                src: C.to_string(),
                specifiers: vec![
                    ExportSpecifier::Named { orig: "x".to_string(), exported: None },
                    ExportSpecifier::Namespace { name: "ns".to_string() },
                    ExportSpecifier::Named {
                        orig: "y".to_string(),
                        exported: Some("z".to_string()),
                    },
                ],
            },
            ModuleItem::Other,
        ],
    );
    let (nodes, reexports) = walk(&parsed);
    assert_eq!(nodes, vec![function_node(A, "f", 1, 0, DeclarationKind::Export)]);
    assert_eq!(
        reexports,
        vec![
            Reexport { kind: ReexportKind::All, src: B.to_string() },
            Reexport { kind: ReexportKind::Named("x".to_string(), None), src: C.to_string() },
            Reexport { kind: ReexportKind::Namespace("ns".to_string()), src: C.to_string() },
            Reexport {
                kind: ReexportKind::Named("y".to_string(), Some("z".to_string())),
                src: C.to_string()
            },
        ]
    );
}

#[test]
fn class_members_are_sorted_by_family_in_source_order() {
    let src = source(A, "class K {\n  a;\n  m() {}\n  constructor() {}\n  b;\n  n() {}\n}");
    let member_at = |line: usize| span(src.text.iter().take_while({
        let mut seen = 1;
        move |c| {
            if seen == line {
                return false;
            }
            if **c == '\n' {
                seen += 1;
            }
            true
        }
    }).count() + 2);
    let property = |name: &str, line: usize, is_private: bool| ClassMember::Property {
        span: member_at(line),
        name: name.to_string(),
        is_private,
        is_static: false,
        readonly: true,
        ts_type: None,
    };
    let method = |name: &str, line: usize| ClassMember::Method {
        span: member_at(line),
        name: name.to_string(),
        is_private: false,
        is_static: true,
        function: signature(),
    };
    let decl = ClassDecl {
        name: "K".to_string(),
        extends: Some("Base".to_string()),
        implements: vec!["I".to_string(), "J".to_string()],
        type_params: vec![TsTypeParamDef {
            name: "T".to_string(),
            constraint: Some(keyword("object")),
            default: None,
        }],
        members: vec![
            property("a", 2, true),
            method("m", 3),
            ClassMember::Constructor { span: member_at(4), is_private: false, params: vec![] },
            ClassMember::Other,
            property("b", 5, false),
            ClassMember::Constructor { span: member_at(6), is_private: true, params: vec![] },
            method("n", 6),
        ],
    };
    let (name, def) = monots_docgen::class::get_doc_for_class_decl(&src, &decl);
    let property_def = |name: &str, line: usize, kind| ClassPropertyDef {
        js_doc: None,
        name: name.to_string(),
        declaration_kind: kind,
        ts_type: None,
        is_static: false,
        readonly: true,
        location: loc(A, line, 2),
    };
    let method_def = |name: &str, line: usize| ClassMethodDef {
        js_doc: None,
        name: name.to_string(),
        declaration_kind: DeclarationKind::Export,
        function_def: signature(),
        is_static: true,
        location: loc(A, line, 2),
    };
    assert_eq!(name, "K");
    assert_eq!(
        def,
        ClassDef {
            constructor: Some(ClassConstructorDef {
                js_doc: None,
                declaration_kind: DeclarationKind::Export,
                params: vec![],
                location: loc(A, 4, 2),
            }),
            properties: vec![
                property_def("a", 2, DeclarationKind::Private),
                property_def("b", 5, DeclarationKind::Export),
            ],
            methods: vec![method_def("m", 3), method_def("n", 6)],
            extends: Some("Base".to_string()),
            implements: vec!["I".to_string(), "J".to_string()],
            type_params: vec![TsTypeParamDef {
                name: "T".to_string(),
                constraint: Some(keyword("object")),
                default: None,
            }],
        }
    );
}

#[test]
fn interface_members_are_sorted_by_family_in_source_order() {
    let src = source(A, "interface I {\n}");
    let call = || InterfaceCallSignatureDef { params: vec![], return_type: Some(keyword("void")) };
    let index = || InterfaceIndexSignatureDef {
        params: vec![],
        value_type: Some(keyword("string")),
        readonly: false,
    };
    let decl = InterfaceDecl {
        name: "I".to_string(),
        extends: vec!["Base".to_string()],
        type_params: vec![],
        members: vec![
            InterfaceMember::Index(index()),
            InterfaceMember::Property {
                span: span(0),
                name: "p".to_string(),
                optional: true,
                ts_type: Some(keyword("number")),
            },
            InterfaceMember::Other,
            InterfaceMember::Method { span: span(14), name: "m".to_string(), function: signature() },
            InterfaceMember::Call(call()),
        ],
    };
    let (name, def) = monots_docgen::interface::get_doc_for_ts_interface_decl(&src, &decl);
    assert_eq!(name, "I");
    assert_eq!(
        def,
        InterfaceDef {
            extends: vec!["Base".to_string()],
            methods: vec![InterfaceMethodDef {
                js_doc: None,
                name: "m".to_string(),
                function_def: signature(),
                location: loc(A, 2, 0),
            }],
            properties: vec![InterfacePropertyDef {
                js_doc: None,
                name: "p".to_string(),
                ts_type: Some(keyword("number")),
                optional: true,
                location: loc(A, 1, 0),
            }],
            call_signatures: vec![call()],
            index_signatures: vec![index()],
            type_params: vec![],
        }
    );
}

#[test]
fn enum_and_type_alias_keep_what_is_written() {
    let src = source(A, "");
    let alias = TsTypeAliasDecl {
        id: "Pair".to_string(),
        type_ann: TsTypeDef::Union(vec![
            TsTypeDef::Generic { name: "Array".to_string(), args: vec![keyword("T")] },
            TsTypeDef::Literal("\"none\"".to_string()),
        ]),
        type_params: vec![TsTypeParamDef { name: "T".to_string(), constraint: None, default: None }],
    };
    let (name, def) = get_doc_for_ts_type_alias_decl(&src, &alias);
    assert_eq!(name, "Pair");
    assert_eq!(
        def,
        TypeAliasDef {
            ts_type: TsTypeDef::Union(vec![
                TsTypeDef::Generic { name: "Array".to_string(), args: vec![keyword("T")] },
                TsTypeDef::Literal("\"none\"".to_string()),
            ]),
            type_params: vec![TsTypeParamDef {
                name: "T".to_string(),
                constraint: None,
                default: None
            }],
        }
    );
    let members = || {
        vec![
            EnumMemberDef { name: "Up".to_string(), value: Some("1".to_string()) },
            EnumMemberDef { name: "Down".to_string(), value: None },
        ]
    };
    let (name, def) = monots_docgen::enums::get_doc_for_ts_enum_decl(&EnumDecl {
        name: "Dir".to_string(),
        members: members(),
    });
    assert_eq!(name, "Dir");
    assert_eq!(def, EnumDef { members: members() });
}

#[test]
fn dotted_namespace_nests_one_namespace_per_name() {
    let text = "declare namespace A.B {\n  function f(a: number): void;\n}";
    let src = source(A, text);
    let inner = TsNamespaceDecl {
        span: span(18),
        id: "B".to_string(),
        body: Box::new(TsNamespaceBody::TsModuleBlock(vec![function_stmt("f", 26, false)])),
    };
    let outer = TsModuleDecl {
        id: TsModuleName::Ident("A".to_string()),
        body: Some(TsNamespaceBody::TsNamespaceDecl(inner)),
    };
    let (name, def) = get_doc_for_ts_module(&src, &outer);
    assert_eq!(name, "A");
    assert_eq!(
        def,
        NamespaceDef {
            elements: vec![DocNode {
                name: "B".to_string(),
                location: loc(A, 1, 18),
                declaration_kind: DeclarationKind::Declare,
                js_doc: None,
                def: DocNodeDef::Namespace(NamespaceDef {
                    elements: vec![function_node(A, "f", 2, 2, DeclarationKind::Private)],
                }),
            }],
        }
    );
}

#[test]
fn namespace_decl_is_ambient_and_located_at_its_own_start() {
    let src = source(A, "x\n  B {}");
    let decl = TsNamespaceDecl {
        span: span(4),
        id: "B".to_string(),
        body: Box::new(TsNamespaceBody::TsModuleBlock(vec![])),
    };
    assert_eq!(
        get_doc_for_ts_namespace_decl(&src, &decl),
        DocNode {
            name: "B".to_string(),
            location: loc(A, 2, 2),
            declaration_kind: DeclarationKind::Declare,
            js_doc: None,
            def: DocNodeDef::Namespace(NamespaceDef { elements: vec![] }),
        }
    );
}

#[test]
fn module_without_body_has_no_elements() {
    let src = source(A, "declare module \"m\";");
    let decl = TsModuleDecl { id: TsModuleName::Str("m".to_string()), body: None };
    assert_eq!(
        get_doc_for_ts_module(&src, &decl),
        ("m".to_string(), NamespaceDef { elements: vec![] })
    );
}

#[test]
fn module_without_reexports_resolves_to_its_own_declarations_without_imports() {
    let body = || {
        vec![
            function_stmt("f", 0, true),
            import_stmt(B, "x", None),
            function_stmt("g", 11, false),
            ModuleItem::Other,
        ]
    };
    let walked = walk(&module(A, body())).0;
    let expected: Vec<DocNode> =
        walked.into_iter().filter(|n| n.kind() != DocNodeKind::Import).collect();
    let resolved = resolve(vec![module(B, vec![function_stmt("x", 0, true)]), module(A, body())], A);
    assert_eq!(resolved, expected);
    assert_eq!(
        resolved,
        vec![
            function_node(A, "f", 1, 0, DeclarationKind::Export),
            function_node(A, "g", 2, 0, DeclarationKind::Private),
        ]
    );
}

#[test]
fn two_module_cycle_ends_with_each_declaration_once() {
    let a = module(A, vec![function_stmt("a1", 0, true), export_all(B), import_stmt(C, "i", None)]);
    let b = module(B, vec![import_stmt(C, "j", None), export_all(A), function_stmt("b1", 3, true)]);
    assert_eq!(
        resolve(vec![a, b], A),
        vec![
            function_node(A, "a1", 1, 0, DeclarationKind::Export),
            function_node(B, "b1", 1, 3, DeclarationKind::Export),
        ]
    );
}

#[test]
fn module_that_reexports_itself_ends() {
    let a = module(A, vec![function_stmt("f", 0, true), export_all(A)]);
    assert_eq!(resolve(vec![a], A), vec![function_node(A, "f", 1, 0, DeclarationKind::Export)]);
}

#[test]
fn named_reexport_with_alias_renames_and_keeps_the_rest() {
    let a = module(A, vec![export_named(B, "x", Some("y"))]);
    let b = module(B, vec![function_stmt("w", 0, true), function_stmt("x", 15, true)]);
    assert_eq!(
        resolve(vec![a, b], A),
        vec![function_node(B, "y", 2, 4, DeclarationKind::Export)]
    );
}

#[test]
fn named_reexport_without_alias_keeps_the_name() {
    let a = module(A, vec![export_named(B, "x", None)]);
    let b = module(B, vec![function_stmt("x", 0, true)]);
    assert_eq!(
        resolve(vec![a, b], A),
        vec![function_node(B, "x", 1, 0, DeclarationKind::Export)]
    );
}

#[test]
fn named_reexport_of_a_missing_name_is_dropped() {
    let a = module(A, vec![function_stmt("f", 0, true), export_named(B, "nope", Some("y"))]);
    let b = module(B, vec![function_stmt("x", 0, true)]);
    assert_eq!(resolve(vec![a, b], A), vec![function_node(A, "f", 1, 0, DeclarationKind::Export)]);
}

#[test]
fn reexport_of_a_module_outside_the_graph_is_dropped() {
    let a = module(A, vec![export_all(C), function_stmt("f", 0, true)]);
    assert_eq!(resolve(vec![a], A), vec![function_node(A, "f", 1, 0, DeclarationKind::Export)]);
}

#[test]
fn root_outside_the_graph_resolves_to_nothing() {
    let a = module(A, vec![function_stmt("f", 0, true)]);
    assert_eq!(resolve(vec![a], B), Vec::<DocNode>::new());
    assert_eq!(resolve(vec![], A), Vec::<DocNode>::new());
}

#[test]
fn reexport_of_everything_leaves_imports_behind() {
    let a = module(A, vec![export_all(B)]);
    let b = module(B, vec![import_stmt(C, "i", None), function_stmt("x", 0, false)]);
    assert_eq!(
        resolve(vec![a, b], A),
        vec![function_node(B, "x", 1, 0, DeclarationKind::Private)]
    );
}

#[test]
fn named_reexport_keeps_an_import_that_it_names() {
    let a = module(A, vec![import_stmt(C, "own", None), export_named(B, "i", Some("j"))]);
    let b = module(B, vec![import_stmt(C, "orig", Some("i"))]);
    let mut expected = import_node(B, C, "orig", Some("i"));
    expected.name = "j".to_string();
    assert_eq!(resolve(vec![a, b], A), vec![expected]);
}

#[test]
fn namespace_reexport_wraps_what_the_module_declares() {
    let a = module(
        A,
        vec![ModuleItem::ExportNamed {
            src: B.to_string(),
            specifiers: vec![ExportSpecifier::Namespace { name: "ns".to_string() }],
        }],
    );
    let b = module(B, vec![function_stmt("x", 0, true), import_stmt(C, "i", None)]);
    assert_eq!(
        resolve(vec![a, b], A),
        vec![DocNode {
            name: "ns".to_string(),
            location: loc(B, 1, 0),
            declaration_kind: DeclarationKind::Export,
            js_doc: None,
            def: DocNodeDef::Namespace(NamespaceDef {
                elements: vec![
                    function_node(B, "x", 1, 0, DeclarationKind::Export),
                    import_node(B, C, "i", None),
                ],
            }),
        }]
    );
}

#[test]
fn own_declarations_come_before_reexported_ones_in_edge_order() {
    let a = module(
        A,
        vec![export_all(C), function_stmt("a1", 0, true), export_all(B), function_stmt("a2", 1, true)],
    );
    let b = module(B, vec![function_stmt("b1", 0, true), export_all(C)]);
    let c = module(C, vec![function_stmt("c1", 0, true)]);
    assert_eq!(
        resolve(vec![c, b, a], A),
        vec![
            function_node(A, "a1", 1, 0, DeclarationKind::Export),
            function_node(A, "a2", 1, 1, DeclarationKind::Export),
            function_node(C, "c1", 1, 0, DeclarationKind::Export),
            function_node(B, "b1", 1, 0, DeclarationKind::Export),
        ]
    );
}

#[test]
fn module_visited_before_passes_nothing_on_again() {
    let a = module(A, vec![export_all(B), export_named(B, "x", Some("y"))]);
    let b = module(B, vec![function_stmt("x", 0, true)]);
    assert_eq!(
        resolve(vec![a, b], A),
        vec![function_node(B, "x", 1, 0, DeclarationKind::Export)]
    );
}

#[test]
fn same_name_from_two_reexports_is_kept_twice() {
    let a = module(A, vec![export_all(B), export_all(C)]);
    let b = module(B, vec![function_stmt("x", 0, true)]);
    let c = module(C, vec![function_stmt("x", 2, true)]);
    assert_eq!(
        resolve(vec![a, b, c], A),
        vec![
            function_node(B, "x", 1, 0, DeclarationKind::Export),
            function_node(C, "x", 1, 2, DeclarationKind::Export),
        ]
    );
}

#[test]
fn first_module_of_a_name_stands_for_it() {
    let first = module(B, vec![function_stmt("first", 0, true)]);
    let second = module(B, vec![function_stmt("second", 0, true)]);
    let a = module(A, vec![export_all(B)]);
    assert_eq!(
        resolve(vec![a, first, second], A),
        vec![function_node(B, "first", 1, 0, DeclarationKind::Export)]
    );
}
