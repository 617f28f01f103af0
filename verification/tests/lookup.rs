use monots_docgen::class::{ClassDef, ClassMethodDef, ClassPropertyDef};
use monots_docgen::function::FunctionDef;
use monots_docgen::interface::{InterfaceDef, InterfaceMethodDef, InterfacePropertyDef};
use monots_docgen::js_doc::JsDoc;
use monots_docgen::namespace::NamespaceDef;
use monots_docgen::ts_type::TsTypeDef;
use monots_docgen::variable::VariableDef;
use monots_docgen::{
    find_nodes_by_name, find_nodes_by_name_recursively, get_children_of_node, split_path,
    DeclarationKind, DocNode, DocNodeDef, DocNodeKind, Location,
};

fn location() -> Location {
    Location { filename: "file:///mod.ts".to_string(), line: 1, col: 0 }
}

fn function(name: &str) -> DocNode {
    DocNode {
        name: name.to_string(),
        location: location(),
        declaration_kind: DeclarationKind::Export,
        js_doc: None,
        def: DocNodeDef::Function(FunctionDef {
            params: vec![],
            return_type: None,
            type_params: vec![],
            is_async: false,
            is_generator: false,
        }),
    }
}

fn namespace(name: &str, elements: Vec<DocNode>) -> DocNode {
    DocNode {
        name: name.to_string(),
        location: location(),
        declaration_kind: DeclarationKind::Export,
        js_doc: None,
        def: DocNodeDef::Namespace(NamespaceDef { elements }),
    }
}

#[test]
fn dotted_path_names_the_child_of_a_namespace() {
    let nodes = vec![namespace("Foo", vec![function("bar"), function("other")])];
    let found = find_nodes_by_name_recursively(nodes, "Foo.bar".to_string());
    assert_eq!(found, vec![function("bar")]);
}

#[test]
fn path_below_a_childless_declaration_names_nothing() {
    let nodes = vec![namespace("Foo", vec![function("bar")])];
    let found = find_nodes_by_name_recursively(nodes, "Foo.bar.baz".to_string());
    assert_eq!(found, Vec::<DocNode>::new());
}

fn signature() -> FunctionDef {
    FunctionDef {
        params: vec![],
        return_type: Some(TsTypeDef::Keyword("void".to_string())),
        type_params: vec![],
        is_async: false,
        is_generator: false,
    }
}

fn class(name: &str) -> DocNode {
    DocNode {
        name: name.to_string(),
        location: location(),
        declaration_kind: DeclarationKind::Export,
        js_doc: None,
        def: DocNodeDef::Class(ClassDef {
            constructor: None,
            properties: vec![ClassPropertyDef {
                js_doc: Some(JsDoc { doc: Some("Size.".to_string()), tags: vec![] }),
                name: "size".to_string(),
                declaration_kind: DeclarationKind::Private,
                ts_type: Some(TsTypeDef::Keyword("number".to_string())),
                is_static: true,
                readonly: true,
                location: Location { filename: "file:///mod.ts".to_string(), line: 4, col: 2 },
            }],
            methods: vec![
                ClassMethodDef {
                    js_doc: None,
                    name: "run".to_string(),
                    declaration_kind: DeclarationKind::Export,
                    function_def: signature(),
                    is_static: false,
                    location: Location { filename: "file:///mod.ts".to_string(), line: 2, col: 2 },
                },
                ClassMethodDef {
                    js_doc: None,
                    name: "size".to_string(),
                    declaration_kind: DeclarationKind::Export,
                    function_def: signature(),
                    is_static: false,
                    location: Location { filename: "file:///mod.ts".to_string(), line: 3, col: 2 },
                },
            ],
            extends: None,
            implements: vec![],
            type_params: vec![],
        }),
    }
}

fn interface(name: &str) -> DocNode {
    DocNode {
        name: name.to_string(),
        location: location(),
        declaration_kind: DeclarationKind::Private,
        js_doc: None,
        def: DocNodeDef::Interface(InterfaceDef {
            extends: vec![],
            methods: vec![InterfaceMethodDef {
                js_doc: None,
                name: "area".to_string(),
                function_def: signature(),
                location: Location { filename: "file:///mod.ts".to_string(), line: 7, col: 2 },
            }],
            properties: vec![InterfacePropertyDef {
                js_doc: None,
                name: "name".to_string(),
                ts_type: None,
                optional: false,
                location: Location { filename: "file:///mod.ts".to_string(), line: 6, col: 2 },
            }],
            call_signatures: vec![],
            index_signatures: vec![],
            type_params: vec![],
        }),
    }
}

#[test]
fn paths_split_at_the_first_dot() {
    assert_eq!(split_path("Foo"), ("Foo".to_string(), None));
    assert_eq!(split_path("Foo.bar"), ("Foo".to_string(), Some("bar".to_string())));
    assert_eq!(split_path("Foo.bar.baz"), ("Foo".to_string(), Some("bar.baz".to_string())));
    assert_eq!(split_path(""), ("".to_string(), None));
    assert_eq!(split_path("."), ("".to_string(), Some("".to_string())));
    assert_eq!(split_path("Foo."), ("Foo".to_string(), Some("".to_string())));
    assert_eq!(split_path("é.ü"), ("é".to_string(), Some("ü".to_string())));
}

#[test]
fn names_are_matched_exactly_and_in_order() {
    let nodes = vec![function("a"), function("b"), namespace("a", vec![]), function("A")];
    assert_eq!(
        find_nodes_by_name(nodes, "a".to_string()),
        vec![function("a"), namespace("a", vec![])]
    );
    assert_eq!(find_nodes_by_name(vec![function("a")], "".to_string()), Vec::<DocNode>::new());
}

#[test]
fn children_of_a_class_are_its_methods_then_its_properties() {
    let children = get_children_of_node(class("K"));
    let names: Vec<(&str, DocNodeKind, DeclarationKind, usize)> = children
        .iter()
        .map(|c| (c.name.as_str(), c.kind(), c.declaration_kind, c.location.line))
        .collect();
    assert_eq!(
        names,
        vec![
            ("run", DocNodeKind::Function, DeclarationKind::Export, 2),
            ("size", DocNodeKind::Function, DeclarationKind::Export, 3),
            ("size", DocNodeKind::Variable, DeclarationKind::Private, 4),
        ]
    );
    assert_eq!(children[0].def, DocNodeDef::Function(signature()));
    assert_eq!(
        children[2].def,
        DocNodeDef::Variable(VariableDef {
            ts_type: Some(TsTypeDef::Keyword("number".to_string())),
            has_initializer: false,
        })
    );
    assert_eq!(children[2].js_doc, Some(JsDoc { doc: Some("Size.".to_string()), tags: vec![] }));
}

#[test]
fn children_of_an_interface_are_visible_declarations() {
    let children = get_children_of_node(interface("I"));
    let names: Vec<(&str, DocNodeKind, DeclarationKind, usize)> = children
        .iter()
        .map(|c| (c.name.as_str(), c.kind(), c.declaration_kind, c.location.line))
        .collect();
    assert_eq!(
        names,
        vec![
            ("area", DocNodeKind::Function, DeclarationKind::Export, 7),
            ("name", DocNodeKind::Variable, DeclarationKind::Export, 6),
        ]
    );
}

#[test]
fn children_of_other_kinds_are_none() {
    assert_eq!(get_children_of_node(function("f")), Vec::<DocNode>::new());
    assert_eq!(
        get_children_of_node(namespace("N", vec![function("f"), function("g")])),
        vec![function("f"), function("g")]
    );
}

#[test]
fn dotted_path_reaches_members_and_nested_namespaces() {
    let nodes = || {
        vec![
            function("K"),
            namespace("Outer", vec![namespace("Inner", vec![class("K"), function("f")])]),
            class("K"),
            interface("K"),
        ]
    };
    let found = find_nodes_by_name_recursively(nodes(), "K.size".to_string());
    let kinds: Vec<DocNodeKind> = found.iter().map(|n| n.kind()).collect();
    assert_eq!(kinds, vec![DocNodeKind::Function, DocNodeKind::Variable]);
    let found = find_nodes_by_name_recursively(nodes(), "Outer.Inner.K.run".to_string());
    assert_eq!(found.len(), 1);
    assert_eq!(found[0].location.line, 2);
    let found = find_nodes_by_name_recursively(nodes(), "K.area".to_string());
    assert_eq!(found.len(), 1);
    assert_eq!(found[0].location.line, 7);
    assert_eq!(find_nodes_by_name_recursively(nodes(), "K".to_string()).len(), 3);
    assert_eq!(find_nodes_by_name_recursively(nodes(), "Outer.K".to_string()).len(), 0);
    assert_eq!(find_nodes_by_name_recursively(nodes(), "K.".to_string()).len(), 0);
    assert_eq!(find_nodes_by_name_recursively(nodes(), "".to_string()).len(), 0);
}
