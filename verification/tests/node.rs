use monots_docgen::class::ClassDef;
use monots_docgen::enums::{EnumDef, EnumMemberDef};
use monots_docgen::function::FunctionDef;
use monots_docgen::interface::InterfaceDef;
use monots_docgen::js_doc::{JsDoc, JsDocTag};
use monots_docgen::namespace::NamespaceDef;
use monots_docgen::node::clone_doc_nodes;
use monots_docgen::ts_type::{clone_ts_types, TsTypeDef};
use monots_docgen::ts_type_param::TsTypeParamDef;
use monots_docgen::type_alias::TypeAliasDef;
use monots_docgen::variable::VariableDef;
use monots_docgen::{
    DeclarationKind, DocNode, DocNodeDef, DocNodeKind, ImportDef, Location, ParamDef,
};

fn location() -> Location {
    Location { filename: "file:///n.ts".to_string(), line: 3, col: 7 }
}

fn js_doc() -> Option<JsDoc> {
    Some(JsDoc {
        doc: Some("Doc.".to_string()),
        tags: vec![JsDocTag::Param { name: "a".to_string(), doc: None }],
    })
}

fn function_def() -> FunctionDef {
    FunctionDef {
        params: vec![ParamDef {
            name: "a".to_string(),
            default: Some("1".to_string()),
            ts_type: Some(TsTypeDef::Keyword("number".to_string())),
            shape: None,
        }],
        return_type: None,
        type_params: vec![TsTypeParamDef {
            name: "T".to_string(),
            constraint: None,
            default: Some(TsTypeDef::Reference("U".to_string())),
        }],
        is_async: true,
        is_generator: false,
    }
}

fn types() -> Vec<TsTypeDef> {
    vec![
        TsTypeDef::Keyword("string".to_string()),
        TsTypeDef::Literal("1".to_string()),
        TsTypeDef::Reference("R".to_string()),
        TsTypeDef::Generic {
            name: "G".to_string(),
            args: vec![TsTypeDef::Array(Box::new(TsTypeDef::Keyword("any".to_string())))],
        },
        TsTypeDef::Union(vec![
            TsTypeDef::Intersection(vec![
                TsTypeDef::Keyword("A".to_string()),
                TsTypeDef::Keyword("B".to_string()),
            ]),
            TsTypeDef::Conditional {
                check: Box::new(TsTypeDef::Keyword("C".to_string())),
                extends_type: Box::new(TsTypeDef::Keyword("D".to_string())),
                true_type: Box::new(TsTypeDef::Keyword("E".to_string())),
                false_type: Box::new(TsTypeDef::Mapped {
                    param: "K".to_string(),
                    constraint: Box::new(TsTypeDef::Keyword("F".to_string())),
                    value: Box::new(TsTypeDef::Keyword("G".to_string())),
                }),
            },
        ]),
    ]
}

fn all_kinds() -> Vec<DocNode> {
    let empty_class = || ClassDef {
        constructor: None,
        properties: vec![],
        methods: vec![],
        extends: None,
        implements: vec![],
        type_params: vec![],
    };
    let empty_interface = || InterfaceDef {
        extends: vec![],
        methods: vec![],
        properties: vec![],
        call_signatures: vec![],
        index_signatures: vec![],
        type_params: vec![],
    };
    let kind = DeclarationKind::Export;
    vec![
        DocNode::function("f".to_string(), location(), kind, js_doc(), function_def()),
        DocNode::variable(
            "v".to_string(),
            location(),
            kind,
            None,
            VariableDef { ts_type: None, has_initializer: true },
        ),
        DocNode::class("C".to_string(), location(), kind, None, empty_class()),
        DocNode::enumeration(
            "E".to_string(),
            location(),
            kind,
            None,
            EnumDef { members: vec![EnumMemberDef { name: "A".to_string(), value: None }] },
        ),
        DocNode::interface("I".to_string(), location(), kind, None, empty_interface()),
        DocNode::type_alias(
            "T".to_string(),
            location(),
            kind,
            None,
            TypeAliasDef { ts_type: TsTypeDef::Union(types()), type_params: vec![] },
        ),
        DocNode::namespace(
            "N".to_string(),
            location(),
            DeclarationKind::Declare,
            None,
            NamespaceDef {
                elements: vec![DocNode::function(
                    "inner".to_string(),
                    location(),
                    DeclarationKind::Private,
                    None,
                    function_def(),
                )],
            },
        ),
        DocNode::import(
            "i".to_string(),
            location(),
            DeclarationKind::Private,
            None,
            ImportDef { src: "./m.ts".to_string(), imported: "x".to_string(), alias: None },
        ),
    ]
}

#[test]
fn builders_set_the_parts_and_the_payload_fixes_the_kind() {
    let nodes = all_kinds();
    let kinds: Vec<DocNodeKind> = nodes.iter().map(|n| n.kind()).collect();
    assert_eq!(
        kinds,
        vec![
            DocNodeKind::Function,
            DocNodeKind::Variable,
            DocNodeKind::Class,
            DocNodeKind::Enum,
            DocNodeKind::Interface,
            DocNodeKind::TypeAlias,
            DocNodeKind::Namespace,
            DocNodeKind::Import,
        ]
    );
    assert_eq!(
        nodes[0],
        DocNode {
            name: "f".to_string(),
            location: location(),
            declaration_kind: DeclarationKind::Export,
            js_doc: js_doc(),
            def: DocNodeDef::Function(function_def()),
        }
    );
    assert_eq!(nodes[6].declaration_kind, DeclarationKind::Declare);
}

#[test]
fn copies_are_equal_to_what_they_copy() {
    let nodes = all_kinds();
    assert_eq!(clone_doc_nodes(&nodes), nodes);
    assert_eq!(nodes[6].clone(), nodes[6]);
    assert_eq!(clone_ts_types(&types()), types());
    assert_eq!(clone_doc_nodes(&vec![]), Vec::<DocNode>::new());
}
